//! The escrow as a mathematical value, and the rules of its operations.

use vstd::prelude::*;
use soroban_sdk::Address;
use crate::cylo_escrow_types::{AdminData, Order};
use crate::errors::CyloEscrowErrors;
use crate::events::{ContractInitialized, EscrowEvent, OrderConfirmed, OrderCreated, OrderRefunded};
use crate::funds::{Transfer, TransferPurpose};

verus! {

/// The escrow as a mathematical value: what the executable ledger stands for.
///
/// The operations below are the escrow's rules. Where a rule depends on the
/// clock or on whether the token contract moved the funds, the instant `now`
/// and the outcome `moved` are arguments.
pub struct EscrowState {
    /// The account that holds the funds of pending orders.
    pub custodian: Address,
    /// The record of the one initialization, once it has happened.
    pub admin: Option<AdminData>,
    /// The id given out last; 0 before the first.
    pub last_order_id: u32,
    /// The orders on record, by id.
    pub orders: Map<u32, Order>,
    /// For each buyer on record, the ids of their orders, oldest first.
    pub buyer_orders: Map<Address, Seq<u32>>,
    /// For each farmer on record, the ids of their orders, oldest first.
    pub farmer_orders: Map<Address, Seq<u32>>,
    /// The events recorded and not yet handed out, oldest first.
    pub events: Seq<EscrowEvent>,
    /// Every transfer that the escrow has asked for, oldest first. This is
    /// history: it is kept for the contracts and costs nothing at run time.
    pub transfers: Seq<Transfer>,
}

/// The ids recorded for `who` in `index`: none where `who` has no entry.
pub open spec fn listed(index: Map<Address, Seq<u32>>, who: Address) -> Seq<u32> {
    if index.dom().contains(who) {
        index[who]
    } else {
        Seq::empty()
    }
}

/// `index` with `id` added at the end of the ids of `who`.
pub open spec fn appended(index: Map<Address, Seq<u32>>, who: Address, id: u32) -> Map<
    Address,
    Seq<u32>,
> {
    index.insert(who, listed(index, who).push(id))
}

/// Whether a batch refund over `start_id` and `limit` has nothing to look at,
/// `last` being the id given out last.
pub open spec fn sweep_is_idle(last: u32, start_id: u32, limit: u32) -> bool {
    last == 0 || start_id > last || limit == 0
}

/// The last id that a batch refund over `start_id` and `limit` looks at:
/// `start_id + limit - 1`, but no further than `last` or the largest `u32`.
pub open spec fn sweep_end(last: u32, start_id: u32, limit: u32) -> u32 {
    if start_id + limit - 1 > last {
        last
    } else {
        (start_id + limit - 1) as u32
    }
}

/// Whether a batch refund over `start_id` and `limit` looks at `id`, `last`
/// being the id given out last.
pub open spec fn sweep_covers(last: u32, start_id: u32, limit: u32, id: u32) -> bool {
    !sweep_is_idle(last, start_id, limit) && start_id <= id <= sweep_end(last, start_id, limit)
}

impl EscrowState {
    /// The escrow of `custodian` before anything has happened.
    pub open spec fn empty(custodian: Address) -> EscrowState {
        EscrowState {
            custodian,
            admin: None,
            last_order_id: 0,
            orders: Map::empty(),
            buyer_orders: Map::empty(),
            farmer_orders: Map::empty(),
            events: Seq::empty(),
            transfers: Seq::empty(),
        }
    }

    /// Every order is recorded under its own id and is valid.
    pub open spec fn wf(self) -> bool {
        forall|id: u32| #[trigger]
            self.orders.dom().contains(id) ==> self.orders[id].id == id && self.orders[id].valid()
    }

    /// The ids recorded for `who` as a buyer.
    pub open spec fn buyer_ids(self, who: Address) -> Seq<u32> {
        listed(self.buyer_orders, who)
    }

    /// The ids recorded for `who` as a farmer.
    pub open spec fn farmer_ids(self, who: Address) -> Seq<u32> {
        listed(self.farmer_orders, who)
    }

    /// Both lists that an order of `buyer` for `farmer` is added to can take
    /// one more id.
    pub open spec fn has_room(self, buyer: Address, farmer: Address) -> bool {
        self.buyer_ids(buyer).len() < u32::MAX && self.farmer_ids(farmer).len() < u32::MAX
    }

    /// The id that the next order gets: one more than the last, stopping at
    /// the largest `u32`.
    pub open spec fn next_id(self) -> u32 {
        if self.last_order_id == u32::MAX {
            u32::MAX
        } else {
            (self.last_order_id + 1) as u32
        }
    }

    /// The escrow with `event` added to its log.
    pub open spec fn with_event(self, event: EscrowEvent) -> EscrowState {
        EscrowState { events: self.events.push(event), ..self }
    }

    /// The escrow with `transfer` added to its history.
    pub open spec fn with_transfer(self, transfer: Transfer) -> EscrowState {
        EscrowState { transfers: self.transfers.push(transfer), ..self }
    }

    /// The escrow with `order` recorded under its id.
    pub open spec fn with_order(self, order: Order) -> EscrowState {
        EscrowState { orders: self.orders.insert(order.id, order), ..self }
    }

    /// Initialization by `admin` at `now`: refused once an admin is on record,
    /// else the admin is recorded, the id counter starts again at 0 and the
    /// event is logged.
    pub open spec fn initialize(self, admin: Address, now: u64) -> (
        EscrowState,
        Result<(), CyloEscrowErrors>,
    ) {
        if self.admin is Some {
            (self, Err(CyloEscrowErrors::AlreadyInitialized))
        } else {
            (
                EscrowState {
                    admin: Some(AdminData { admin, initialized: true }),
                    last_order_id: 0,
                    ..self
                }.with_event(
                    EscrowEvent::Initialized(ContractInitialized { timestamp: now, admin }),
                ),
                Ok(()),
            )
        }
    }

    /// The order that a creation at `now` puts on record.
    pub open spec fn new_order(
        self,
        buyer: Address,
        farmer: Address,
        token: Address,
        amount: i128,
        metadata: soroban_sdk::String,
        now: u64,
    ) -> Order {
        Order {
            id: self.next_id(),
            buyer,
            farmer,
            token,
            amount,
            timestamp: now,
            confirmed: false,
            refunded: false,
            metadata,
        }
    }

    /// The escrow after an order whose funds have arrived is put on record at
    /// `now`: the next id is taken, the order stored as pending, its id added
    /// to the lists of its buyer and its farmer, and the event logged.
    pub open spec fn recorded(
        self,
        buyer: Address,
        farmer: Address,
        token: Address,
        amount: i128,
        metadata: soroban_sdk::String,
        now: u64,
    ) -> EscrowState {
        let id = self.next_id();
        EscrowState {
            last_order_id: id,
            orders: self.orders.insert(
                id,
                self.new_order(buyer, farmer, token, amount, metadata, now),
            ),
            buyer_orders: appended(self.buyer_orders, buyer, id),
            farmer_orders: appended(self.farmer_orders, farmer, id),
            ..self
        }.with_event(EscrowEvent::Created(OrderCreated { id, buyer, farmer, token, amount }))
    }

    /// The transfer that the creation of an order asks for: `amount` of `token`
    /// from the buyer to the custodian, for the order with the next id.
    pub open spec fn deposit(self, buyer: Address, token: Address, amount: i128, moved: bool)
        -> Transfer {
        Transfer {
            purpose: TransferPurpose::Deposit,
            order_id: self.next_id(),
            token,
            from: buyer,
            to: self.custodian,
            amount,
            moved,
        }
    }

    /// The transfer that the confirmation of `order` asks for: its amount from
    /// the custodian to its farmer.
    pub open spec fn release(self, order: Order, moved: bool) -> Transfer {
        Transfer {
            purpose: TransferPurpose::Release,
            order_id: order.id,
            token: order.token,
            from: self.custodian,
            to: order.farmer,
            amount: order.amount,
            moved,
        }
    }

    /// The transfer that the refund of `order` asks for: its amount from the
    /// custodian to its buyer.
    pub open spec fn refund(self, order: Order, moved: bool) -> Transfer {
        Transfer {
            purpose: TransferPurpose::Refund,
            order_id: order.id,
            token: order.token,
            from: self.custodian,
            to: order.buyer,
            amount: order.amount,
            moved,
        }
    }

    /// Creation of an order: refused for an amount that is not positive and
    /// for a buyer who is the farmer, which changes nothing; then it stands or
    /// falls with the move of the funds from the buyer to the custodian. Where
    /// the funds do not move the creation leaves nothing but the history of
    /// the attempt.
    pub open spec fn create_order(
        self,
        buyer: Address,
        farmer: Address,
        token: Address,
        amount: i128,
        metadata: soroban_sdk::String,
        moved: bool,
        now: u64,
    ) -> (EscrowState, Result<u32, CyloEscrowErrors>) {
        if amount <= 0 || buyer == farmer {
            (self, Err(CyloEscrowErrors::InvalidInput))
        } else {
            let asked = self.with_transfer(self.deposit(buyer, token, amount, moved));
            if moved {
                (
                    asked.recorded(buyer, farmer, token, amount, metadata, now),
                    Ok(self.next_id()),
                )
            } else {
                (asked, Err(CyloEscrowErrors::TransferFailed))
            }
        }
    }

    /// Why `buyer` may not confirm order `id`, if so: there is no such order,
    /// it is settled already, or it belongs to another buyer, in this order.
    pub open spec fn confirm_refusal(self, buyer: Address, id: u32) -> Option<CyloEscrowErrors> {
        if !self.orders.dom().contains(id) {
            Some(CyloEscrowErrors::InvalidOrderId)
        } else if self.orders[id].is_settled() {
            Some(CyloEscrowErrors::AlreadyProcessed)
        } else if self.orders[id].buyer != buyer {
            Some(CyloEscrowErrors::Unauthorized)
        } else {
            None
        }
    }

    /// Confirmation of order `id` by `buyer`. Where it is not refused the
    /// order is marked confirmed before the funds move to the farmer, and
    /// stays so if they do not move; the event is logged only if they do.
    pub open spec fn confirm_receipt(self, buyer: Address, id: u32, moved: bool) -> (
        EscrowState,
        Result<(), CyloEscrowErrors>,
    ) {
        match self.confirm_refusal(buyer, id) {
            Some(e) => (self, Err(e)),
            None => {
                let marked = self.with_order(self.orders[id].as_confirmed()).with_transfer(
                    self.release(self.orders[id], moved),
                );
                if moved {
                    (marked.with_event(EscrowEvent::Confirmed(OrderConfirmed { id })), Ok(()))
                } else {
                    (marked, Err(CyloEscrowErrors::TransferFailed))
                }
            },
        }
    }

    /// Order `id` is on record, pending, and its refund window has passed at
    /// `now`.
    pub open spec fn is_due(self, id: u32, now: u64) -> bool {
        self.orders.dom().contains(id) && self.orders[id].is_due(now)
    }

    /// The refund of order `id` at `now`, if it is due. An unknown id is an
    /// error; an order that is settled or not yet expired is left alone with
    /// `false`. A due order is marked refunded before the funds move to the
    /// buyer, and stays so if they do not move; the event is logged and
    /// `true` returned only if they do.
    pub open spec fn refund_if_expired(self, id: u32, now: u64, moved: bool) -> (
        EscrowState,
        Result<bool, CyloEscrowErrors>,
    ) {
        if !self.orders.dom().contains(id) {
            (self, Err(CyloEscrowErrors::InvalidOrderId))
        } else if !self.orders[id].is_due(now) {
            (self, Ok(false))
        } else {
            let marked = self.with_order(self.orders[id].as_refunded()).with_transfer(
                self.refund(self.orders[id], moved),
            );
            if moved {
                (marked.with_event(EscrowEvent::Refunded(OrderRefunded { id })), Ok(true))
            } else {
                (marked, Err(CyloEscrowErrors::TransferFailed))
            }
        }
    }

    /// The refund of one order on request: as `refund_if_expired`, with
    /// `NotExpired` where that leaves the order alone.
    pub open spec fn refund_order(self, id: u32, now: u64, moved: bool) -> (
        EscrowState,
        Result<(), CyloEscrowErrors>,
    ) {
        let (after, outcome) = self.refund_if_expired(id, now, moved);
        (
            after,
            match outcome {
                Ok(true) => Ok(()),
                Ok(false) => Err(CyloEscrowErrors::NotExpired),
                Err(e) => Err(e),
            },
        )
    }

    /// The refund of the ids from `lo` to `hi`, both included, in rising
    /// order at `now`, with the number of refunds that were paid out. `paid`
    /// holds the ids whose funds the token contract moves. An id whose refund
    /// fails in any way is passed over.
    pub open spec fn refund_range(self, lo: int, hi: int, now: u64, paid: Set<u32>) -> (
        EscrowState,
        nat,
    )
        recommends
            0 <= lo,
            hi <= u32::MAX,
        decreases hi - lo + 1,
    {
        if lo > hi {
            (self, 0)
        } else {
            let (before, count) = self.refund_range(lo, hi - 1, now, paid);
            let (after, outcome) = before.refund_if_expired(
                hi as u32,
                now,
                paid.contains(hi as u32),
            );
            (
                after,
                if outcome == Ok::<bool, CyloEscrowErrors>(true) {
                    count + 1
                } else {
                    count
                },
            )
        }
    }

    /// How many orders with an id from `lo` to `hi`, both included, are due at
    /// `now` and have their id in `paid`.
    pub open spec fn paid_refunds(self, lo: int, hi: int, now: u64, paid: Set<u32>) -> nat
        recommends
            0 <= lo,
            hi <= u32::MAX,
        decreases hi - lo + 1,
    {
        if lo > hi {
            0
        } else {
            let earlier = self.paid_refunds(lo, hi - 1, now, paid);
            if self.is_due(hi as u32, now) && paid.contains(hi as u32) {
                earlier + 1
            } else {
                earlier
            }
        }
    }

    /// The batch refund at `now` of up to `limit` ids from `start_id` on,
    /// none beyond the id given out last.
    pub open spec fn refund_expired_orders(
        self,
        start_id: u32,
        limit: u32,
        now: u64,
        paid: Set<u32>,
    ) -> (EscrowState, nat) {
        if sweep_is_idle(self.last_order_id, start_id, limit) {
            (self, 0)
        } else {
            self.refund_range(
                start_id as int,
                sweep_end(self.last_order_id, start_id, limit) as int,
                now,
                paid,
            )
        }
    }
}

/// A refund over a range asks `paid` only about the ids of that range: two
/// sets that agree there give the same refund.
pub proof fn lemma_refund_range_reads_its_ids(
    s: EscrowState,
    lo: int,
    hi: int,
    now: u64,
    paid: Set<u32>,
    other: Set<u32>,
)
    requires
        0 <= lo,
        hi <= u32::MAX,
        forall|id: u32| lo <= id <= hi ==> (paid.contains(id) <==> other.contains(id)),
    ensures
        s.refund_range(lo, hi, now, paid) == s.refund_range(lo, hi, now, other),
    decreases hi - lo + 1,
{
    if lo <= hi {
        lemma_refund_range_reads_its_ids(s, lo, hi - 1, now, paid, other);
        assert(paid.contains(hi as u32) <==> other.contains(hi as u32));
    }
}

} // verus!
