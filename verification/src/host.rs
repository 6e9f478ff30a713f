//! The boundary to the Soroban SDK. Everything in this file is believed, not
//! proved: the types are opaque to the verifier and each function's contract
//! states what the SDK's own code and documentation say of the call it makes.
//! A call into the ledger host can also end the whole invocation when the
//! host runs out of its budget; no contract here speaks of that.

use vstd::prelude::*;
use soroban_sdk::token::TokenClient;
use soroban_sdk::{Address, Env};

verus! {

/// `soroban_sdk::Env`, the handle to the ledger host. Opaque.
#[verifier::external_type_specification]
#[verifier::external_body]
pub struct ExEnv(Env);

/// `soroban_sdk::Address`, the identifier of an account or a contract.
/// Opaque: the library only compares, copies and passes on addresses.
#[verifier::external_type_specification]
#[verifier::external_body]
pub struct ExAddress(Address);

/// `soroban_sdk::String`, the text that comes with an order. Opaque: the
/// library only copies it and passes it on.
#[verifier::external_type_specification]
#[verifier::external_body]
pub struct ExText(soroban_sdk::String);

/// `soroban_sdk::Vec`, a sequence of values kept by the host.
#[verifier::external_type_specification]
#[verifier::external_body]
#[verifier::reject_recursive_types(T)]
pub struct ExHostVec<T>(soroban_sdk::Vec<T>);

/// The ids that a `soroban_sdk::Vec<u32>` holds, first to last. A value of
/// that type refers to a host object that never changes, so its contents
/// belong to the value.
pub uninterp spec fn id_list(list: soroban_sdk::Vec<u32>) -> Seq<u32>;

/// What `soroban_sdk::Address::to_string` returns for `address`, byte by
/// byte: the address in its strkey form. It begins with `C` for the address
/// of a contract and with `G` for that of an account.
pub uninterp spec fn strkey_of(address: Address) -> Seq<u8>;

/// Calls `soroban_sdk::Address::to_string` and copies the text out of the
/// host with `String::copy_into_slice`. The contract gives the bytes their
/// name.
#[verifier::external_body]
pub(crate) fn address_strkey(address: &Address) -> (bytes: Vec<u8>)
    ensures
        bytes@ == strkey_of(*address),
{
    let text = address.to_string();
    let mut bytes = vec![0u8; text.len() as usize];
    text.copy_into_slice(&mut bytes);
    bytes
}

/// The strkey of `address` is that of a contract: it begins with `C`.
pub open spec fn names_a_contract(address: Address) -> bool {
    strkey_of(address).len() > 0 && strkey_of(address)[0] == 0x43
}

/// Calls `try_transfer` of `soroban_sdk::token::TokenClient` on the contract
/// `token`, to move `amount` from `from` to `to`, and reports whether the call
/// came back without an error. Nothing is claimed of the result: it depends on
/// the token contract and on the balances and authorizations on the ledger.
/// The host does not return from a call to an address that is not a
/// contract's: such a `token` is left out.
#[verifier::external_body]
pub(crate) fn token_transfer(
    env: &Env,
    token: &Address,
    from: &Address,
    to: &Address,
    amount: i128,
) -> (moved: bool)
    requires
        names_a_contract(*token),
{
    TokenClient::new(env, token).try_transfer(from, to, &amount).is_ok()
}

/// Calls `soroban_sdk::ledger::Ledger::timestamp` through `Env::ledger`: the
/// close time of the ledger in seconds. Nothing is claimed of the result.
#[verifier::external_body]
pub(crate) fn ledger_timestamp(env: &Env) -> (now: u64) {
    env.ledger().timestamp()
}

/// Calls `eq` of `soroban_sdk::Address`, which asks the host to compare the
/// two identifiers. The contract claims that the answer is `true` exactly
/// for equal addresses: the verifier's equality on `Address` is the SDK's.
#[verifier::external_body]
pub(crate) fn same_address(a: &Address, b: &Address) -> (same: bool)
    ensures
        same == (*a == *b),
{
    a == b
}

/// Calls `clone` of `soroban_sdk::Address`. The contract claims that the copy
/// is the same address.
#[verifier::external_body]
pub(crate) fn clone_address(a: &Address) -> (copy: Address)
    ensures
        copy == *a,
{
    a.clone()
}

/// Calls `clone` of `soroban_sdk::String`. The contract claims that the copy
/// is the same text.
#[verifier::external_body]
pub(crate) fn clone_text(text: &soroban_sdk::String) -> (copy: soroban_sdk::String)
    ensures
        copy == *text,
{
    text.clone()
}

/// Calls `soroban_sdk::Vec::new`. The contract claims that the new list is
/// empty.
#[verifier::external_body]
pub(crate) fn new_id_list(env: &Env) -> (list: soroban_sdk::Vec<u32>)
    ensures
        id_list(list) == Seq::<u32>::empty(),
{
    soroban_sdk::Vec::new(env)
}

/// Calls `soroban_sdk::Vec::push_back`. The contract claims that `id` is
/// added behind the ids that the list held. The host refuses to grow a list
/// that holds `u32::MAX` items, and the SDK panics then: such a list is left
/// out.
#[verifier::external_body]
pub(crate) fn push_id(list: &mut soroban_sdk::Vec<u32>, id: u32)
    requires
        id_list(*old(list)).len() < u32::MAX,
    ensures
        id_list(*final(list)) == id_list(*old(list)).push(id),
{
    list.push_back(id)
}

/// Calls `soroban_sdk::Vec::len`. The contract claims that the result is the
/// number of ids in the list.
#[verifier::external_body]
pub(crate) fn id_count(list: &soroban_sdk::Vec<u32>) -> (count: u32)
    ensures
        count == id_list(*list).len(),
{
    list.len()
}

/// Calls `clone` of `soroban_sdk::Vec`, which copies the reference to the
/// host object. The contract claims that the copy holds the same ids.
#[verifier::external_body]
pub(crate) fn clone_id_list(list: &soroban_sdk::Vec<u32>) -> (copy: soroban_sdk::Vec<u32>)
    ensures
        id_list(copy) == id_list(*list),
{
    list.clone()
}

} // verus!
