//! Orders, their summary and the admin record.

use vstd::prelude::*;
use soroban_sdk::Address;
use crate::host::{clone_address, clone_text, same_address};

verus! {

/// Seconds after its creation from which an unconfirmed order may be refunded:
/// 96 hours.
pub const EXPIRATION_PERIOD: u64 = 345600;

/// The instant from which an order created at `timestamp` may be refunded.
/// The sum stops at the largest `u64`.
pub open spec fn expiry_of(timestamp: u64) -> u64 {
    if timestamp + EXPIRATION_PERIOD > u64::MAX {
        u64::MAX
    } else {
        (timestamp + EXPIRATION_PERIOD) as u64
    }
}

/// One escrow record: `amount` of `token`, locked by `buyer` for `farmer`.
#[derive(Debug, PartialEq, Eq)]
pub struct Order {
    pub id: u32,
    pub buyer: Address,
    pub farmer: Address,
    pub token: Address,
    pub amount: i128,
    pub timestamp: u64,
    pub confirmed: bool,
    pub refunded: bool,
    pub metadata: soroban_sdk::String,
}

impl Order {
    /// Neither confirmed nor refunded yet.
    pub open spec fn is_pending(self) -> bool {
        !self.confirmed && !self.refunded
    }

    /// Confirmed or refunded: nothing may change the order any more.
    pub open spec fn is_settled(self) -> bool {
        self.confirmed || self.refunded
    }

    /// The refund window has passed at `now`.
    pub open spec fn is_expired(self, now: u64) -> bool {
        now >= expiry_of(self.timestamp)
    }

    /// Pending, and the refund window has passed at `now`.
    pub open spec fn is_due(self, now: u64) -> bool {
        self.is_pending() && self.is_expired(now)
    }

    /// What holds of every order on record: ids start at 1, the amount is
    /// positive, buyer and farmer differ, and at most one of the two
    /// settlements has happened.
    pub open spec fn valid(self) -> bool {
        &&& self.id >= 1
        &&& self.amount > 0
        &&& self.buyer != self.farmer
        &&& !(self.confirmed && self.refunded)
    }

    /// The order after the buyer's confirmation.
    pub open spec fn as_confirmed(self) -> Order {
        Order { confirmed: true, ..self }
    }

    /// The order after its refund.
    pub open spec fn as_refunded(self) -> Order {
        Order { refunded: true, ..self }
    }

    /// The summary of the order at `now`.
    pub open spec fn status_at(self, now: u64) -> OrderStatus {
        OrderStatus {
            is_confirmed: self.confirmed,
            is_refunded: self.refunded,
            is_expired: self.is_expired(now),
            time_remaining: if self.is_expired(now) {
                0
            } else {
                (expiry_of(self.timestamp) - now) as u64
            },
        }
    }

    /// Whether the order may stand on record: see `valid`.
    pub fn is_valid(&self) -> (r: bool)
        ensures
            r == self.valid(),
    {
        if self.id < 1 || self.amount <= 0 || (self.confirmed && self.refunded) {
            false
        } else {
            !same_address(&self.buyer, &self.farmer)
        }
    }

    /// The instant from which the order may be refunded.
    pub fn expiry(&self) -> (at: u64)
        ensures
            at == expiry_of(self.timestamp),
    {
        self.timestamp.saturating_add(EXPIRATION_PERIOD)
    }

    /// The summary of the order at `now`: the two settlement flags, whether the
    /// refund window has passed, and the seconds left of it.
    pub fn status(&self, now: u64) -> (status: OrderStatus)
        ensures
            status == self.status_at(now),
    {
        let expiry = self.expiry();
        if now >= expiry {
            OrderStatus {
                is_confirmed: self.confirmed,
                is_refunded: self.refunded,
                is_expired: true,
                time_remaining: 0,
            }
        } else {
            OrderStatus {
                is_confirmed: self.confirmed,
                is_refunded: self.refunded,
                is_expired: false,
                time_remaining: expiry - now,
            }
        }
    }
}

impl Clone for Order {
    fn clone(&self) -> (copy: Self)
        ensures
            copy == *self,
    {
        Order {
            id: self.id,
            buyer: clone_address(&self.buyer),
            farmer: clone_address(&self.farmer),
            token: clone_address(&self.token),
            amount: self.amount,
            timestamp: self.timestamp,
            confirmed: self.confirmed,
            refunded: self.refunded,
            metadata: clone_text(&self.metadata),
        }
    }
}

/// A read-only summary of one order at some instant.
#[derive(Clone, Copy, Debug, PartialEq, Eq, Structural)]
pub struct OrderStatus {
    pub is_confirmed: bool,
    pub is_refunded: bool,
    pub is_expired: bool,
    pub time_remaining: u64,
}

/// The record written by the one initialization.
#[derive(Debug, PartialEq, Eq)]
pub struct AdminData {
    pub admin: Address,
    pub initialized: bool,
}

impl Clone for AdminData {
    fn clone(&self) -> (copy: Self)
        ensures
            copy == *self,
    {
        AdminData { admin: clone_address(&self.admin), initialized: self.initialized }
    }
}

} // verus!
