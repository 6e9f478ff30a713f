//! Transfers of funds through token contracts.

use vstd::prelude::*;
use soroban_sdk::{Address, Env};
use crate::host::{address_strkey, names_a_contract, token_transfer};

verus! {

/// What a transfer of funds is for.
#[derive(Clone, Copy, Debug, PartialEq, Eq, Structural)]
pub enum TransferPurpose {
    /// The buyer's funds go to the custodian when an order is created.
    Deposit,
    /// The funds of a confirmed order go from the custodian to the farmer.
    Release,
    /// The funds of an expired order go from the custodian back to the buyer.
    Refund,
}

/// One transfer that the escrow has asked a token contract for, with what
/// came of it.
pub struct Transfer {
    pub purpose: TransferPurpose,
    /// The order that the funds belong to.
    pub order_id: u32,
    pub token: Address,
    pub from: Address,
    pub to: Address,
    pub amount: i128,
    /// Whether the token contract moved the funds.
    pub moved: bool,
}

impl Transfer {
    /// The transfer took funds of order `id` out of the custodian's hands.
    pub open spec fn paid_out(self, id: u32) -> bool {
        self.moved && self.order_id == id && self.purpose != TransferPurpose::Deposit
    }
}

/// Whether `address` is the address of a contract, going by its strkey.
pub fn is_contract_address(address: &Address) -> (r: bool)
    ensures
        r == names_a_contract(*address),
{
    let key = address_strkey(address);
    key.len() > 0 && key[0] == 0x43u8
}

/// Asks the token contract `token` to move `amount` from `from` to `to` and
/// tells whether it did. It never fails in another way than by returning
/// `false`: where `token` is not the address of a contract nothing is asked
/// and nothing moves.
pub fn move_funds(
    env: &Env,
    token: &Address,
    from: &Address,
    to: &Address,
    amount: i128,
) -> (moved: bool)
    ensures
        !names_a_contract(*token) ==> !moved,
{
    if is_contract_address(token) {
        token_transfer(env, token, from, to, amount)
    } else {
        false
    }
}

} // verus!
