//! The events that the escrow logs for its host to publish.

use vstd::prelude::*;
use soroban_sdk::Address;
use crate::host::clone_address;

verus! {

/// Recorded by the one successful initialization.
#[derive(Debug, PartialEq, Eq)]
pub struct ContractInitialized {
    pub timestamp: u64,
    pub admin: Address,
}

/// Recorded when an order has been created and its funds are held.
#[derive(Debug, PartialEq, Eq)]
pub struct OrderCreated {
    pub id: u32,
    pub buyer: Address,
    pub farmer: Address,
    pub token: Address,
    pub amount: i128,
}

/// Recorded when the funds of a confirmed order have reached the farmer.
#[derive(Clone, Copy, Debug, PartialEq, Eq, Structural)]
pub struct OrderConfirmed {
    pub id: u32,
}

/// Recorded when the funds of an expired order have gone back to the buyer.
#[derive(Clone, Copy, Debug, PartialEq, Eq, Structural)]
pub struct OrderRefunded {
    pub id: u32,
}

/// One entry of the escrow's event log.
#[derive(Debug, PartialEq, Eq)]
pub enum EscrowEvent {
    Initialized(ContractInitialized),
    Created(OrderCreated),
    Confirmed(OrderConfirmed),
    Refunded(OrderRefunded),
}

impl Clone for ContractInitialized {
    fn clone(&self) -> (copy: Self)
        ensures
            copy == *self,
    {
        ContractInitialized { timestamp: self.timestamp, admin: clone_address(&self.admin) }
    }
}

impl Clone for OrderCreated {
    fn clone(&self) -> (copy: Self)
        ensures
            copy == *self,
    {
        OrderCreated {
            id: self.id,
            buyer: clone_address(&self.buyer),
            farmer: clone_address(&self.farmer),
            token: clone_address(&self.token),
            amount: self.amount,
        }
    }
}

impl Clone for EscrowEvent {
    fn clone(&self) -> (copy: Self)
        ensures
            copy == *self,
    {
        match self {
            EscrowEvent::Initialized(e) => EscrowEvent::Initialized(e.clone()),
            EscrowEvent::Created(e) => EscrowEvent::Created(e.clone()),
            EscrowEvent::Confirmed(e) => EscrowEvent::Confirmed(OrderConfirmed { id: e.id }),
            EscrowEvent::Refunded(e) => EscrowEvent::Refunded(OrderRefunded { id: e.id }),
        }
    }
}

} // verus!
