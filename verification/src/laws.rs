//! What holds of every escrow, proved from the rules of `state`.

use vstd::prelude::*;
use soroban_sdk::Address;
use crate::cylo_escrow_types::{expiry_of, AdminData};
use crate::errors::CyloEscrowErrors;
use crate::funds::{Transfer, TransferPurpose};
use crate::state::{listed, sweep_covers, sweep_end, sweep_is_idle, EscrowState};

verus! {

/// One call of the escrow, with what the outside world contributes to it:
/// the ledger's time `now`, and whether the token contract moves the funds
/// (`moved`; for a batch refund the set `paid` of the ids whose funds it
/// moves).
pub enum Call {
    Initialize { admin: Address, now: u64 },
    CreateOrder {
        buyer: Address,
        farmer: Address,
        token: Address,
        amount: i128,
        metadata: soroban_sdk::String,
        moved: bool,
        now: u64,
    },
    ConfirmReceipt { buyer: Address, order_id: u32, moved: bool },
    RefundOrder { order_id: u32, now: u64, moved: bool },
    RefundExpiredOrders { start_id: u32, limit: u32, now: u64, paid: Set<u32> },
}

impl EscrowState {
    /// The escrow after `call`.
    pub open spec fn after(self, call: Call) -> EscrowState {
        match call {
            Call::Initialize { admin, now } => self.initialize(admin, now).0,
            Call::CreateOrder { buyer, farmer, token, amount, metadata, moved, now } => {
                self.create_order(buyer, farmer, token, amount, metadata, moved, now).0
            },
            Call::ConfirmReceipt { buyer, order_id, moved } => {
                self.confirm_receipt(buyer, order_id, moved).0
            },
            Call::RefundOrder { order_id, now, moved } => self.refund_order(order_id, now, moved).0,
            Call::RefundExpiredOrders { start_id, limit, now, paid } => {
                self.refund_expired_orders(start_id, limit, now, paid).0
            },
        }
    }

    /// The escrow after the calls of `calls`, first to last.
    pub open spec fn after_all(self, calls: Seq<Call>) -> EscrowState
        decreases calls.len(),
    {
        if calls.len() == 0 {
            self
        } else {
            self.after_all(calls.drop_last()).after(calls.last())
        }
    }

    /// The ids that the creations among `calls` return, in the order of the
    /// calls; a creation that fails returns none.
    pub open spec fn created_ids(self, calls: Seq<Call>) -> Seq<u32>
        decreases calls.len(),
    {
        if calls.len() == 0 {
            Seq::empty()
        } else {
            let before = self.after_all(calls.drop_last());
            let earlier = self.created_ids(calls.drop_last());
            match calls.last() {
                Call::CreateOrder { buyer, farmer, token, amount, metadata, moved, now } => {
                    match before.create_order(buyer, farmer, token, amount, metadata, moved, now).1 {
                        Ok(id) => earlier.push(id),
                        Err(_) => earlier,
                    }
                },
                _ => earlier,
            }
        }
    }

    /// The id counter has passed every order on record: the next creation
    /// cannot hit an id in use unless the counter has reached its end.
    pub open spec fn counts_every_order(self) -> bool {
        forall|id: u32| #[trigger] self.orders.dom().contains(id) ==> id <= self.last_order_id
    }
}

/// What a refund over a range of ids does, id by id: each order of the range
/// that is due becomes refunded and nothing else in the escrow changes but
/// the log, which grows by one event for each refund paid out. The refunds
/// paid out are those of the due orders whose funds move: no more than the
/// range has ids.
pub proof fn law_refund_range_marks_due_orders(
    s: EscrowState,
    lo: int,
    hi: int,
    now: u64,
    paid: Set<u32>,
)
    requires
        s.wf(),
        0 <= lo,
        hi <= u32::MAX,
    ensures
        ({
            let (t, count) = s.refund_range(lo, hi, now, paid);
            &&& t.wf()
            &&& t.custodian == s.custodian
            &&& t.admin == s.admin
            &&& t.last_order_id == s.last_order_id
            &&& t.buyer_orders == s.buyer_orders
            &&& t.farmer_orders == s.farmer_orders
            &&& t.orders.dom() == s.orders.dom()
            &&& forall|id: u32| #[trigger]
                s.orders.dom().contains(id) ==> t.orders[id] == if lo <= id <= hi
                    && s.orders[id].is_due(now) {
                    s.orders[id].as_refunded()
                } else {
                    s.orders[id]
                }
            &&& t.events.len() == s.events.len() + count
            &&& t.events.subrange(0, s.events.len() as int) == s.events
            &&& s.transfers.is_prefix_of(t.transfers)
            &&& count == s.paid_refunds(lo, hi, now, paid)
            &&& lo <= hi ==> count <= hi - lo + 1
            &&& lo > hi ==> count == 0
        }),
    decreases hi - lo + 1,
{
    if lo <= hi {
        law_refund_range_marks_due_orders(s, lo, hi - 1, now, paid);
        let (before, n) = s.refund_range(lo, hi - 1, now, paid);
        let id = hi as u32;
        let (t, outcome) = before.refund_if_expired(id, now, paid.contains(id));
        assert(t.orders.dom() =~= s.orders.dom());
        assert(t.events.subrange(0, s.events.len() as int) =~= s.events);
    } else {
        assert(s.events.subrange(0, s.events.len() as int) =~= s.events);
    }
}

/// What a batch refund does, order by order: each order that it looks at and
/// that is due becomes refunded, whether or not its funds move, and nothing
/// else in the escrow changes but the log, which grows by one event for each
/// refund paid out.
pub proof fn law_batch_refund_marks_due_orders(
    s: EscrowState,
    start_id: u32,
    limit: u32,
    now: u64,
    paid: Set<u32>,
)
    requires
        s.wf(),
    ensures
        ({
            let (t, count) = s.refund_expired_orders(start_id, limit, now, paid);
            &&& t.wf()
            &&& t.custodian == s.custodian
            &&& t.admin == s.admin
            &&& t.last_order_id == s.last_order_id
            &&& t.buyer_orders == s.buyer_orders
            &&& t.farmer_orders == s.farmer_orders
            &&& t.orders.dom() == s.orders.dom()
            &&& forall|id: u32| #[trigger]
                s.orders.dom().contains(id) ==> t.orders[id] == if sweep_covers(
                    s.last_order_id,
                    start_id,
                    limit,
                    id,
                ) && s.orders[id].is_due(now) {
                    s.orders[id].as_refunded()
                } else {
                    s.orders[id]
                }
            &&& t.events.len() == s.events.len() + count
            &&& t.events.subrange(0, s.events.len() as int) == s.events
            &&& count <= limit
            &&& !sweep_is_idle(s.last_order_id, start_id, limit) ==> count == s.paid_refunds(
                start_id as int,
                sweep_end(s.last_order_id, start_id, limit) as int,
                now,
                paid,
            )
            &&& (forall|id: u32|
                sweep_covers(s.last_order_id, start_id, limit, id) ==> !#[trigger] s.is_due(
                    id,
                    now,
                )) ==> count == 0
        }),
{
    if !sweep_is_idle(s.last_order_id, start_id, limit) {
        let end = sweep_end(s.last_order_id, start_id, limit);
        law_refund_range_marks_due_orders(s, start_id as int, end as int, now, paid);
        if forall|id: u32|
            sweep_covers(s.last_order_id, start_id, limit, id) ==> !#[trigger] s.is_due(id, now) {
            lemma_nothing_due_nothing_paid(s, start_id as int, end as int, now, paid);
        }
    } else {
        assert(s.events.subrange(0, s.events.len() as int) =~= s.events);
    }
}

/// Where no order of a range is due, no refund of the range is paid out.
proof fn lemma_nothing_due_nothing_paid(
    s: EscrowState,
    lo: int,
    hi: int,
    now: u64,
    paid: Set<u32>,
)
    requires
        0 <= lo,
        hi <= u32::MAX,
        forall|id: u32| lo <= id <= hi ==> !#[trigger] s.is_due(id, now),
    ensures
        s.paid_refunds(lo, hi, now, paid) == 0,
    decreases hi - lo + 1,
{
    if lo <= hi {
        lemma_nothing_due_nothing_paid(s, lo, hi - 1, now, paid);
        assert(!s.is_due(hi as u32, now));
    }
}

/// Every call leaves the escrow in order. In particular no order is ever both
/// confirmed and refunded.
pub proof fn law_calls_keep_the_escrow_in_order(s: EscrowState, call: Call)
    requires
        s.wf(),
    ensures
        s.after(call).wf(),
{
    match call {
        Call::RefundExpiredOrders { start_id, limit, now, paid } => {
            law_batch_refund_marks_due_orders(s, start_id, limit, now, paid);
        },
        _ => {},
    }
}

/// An order on record has reached at most one of its two ends.
pub proof fn law_at_most_one_settlement(s: EscrowState, id: u32)
    requires
        s.wf(),
        s.orders.dom().contains(id),
    ensures
        !(s.orders[id].confirmed && s.orders[id].refunded),
        s.orders[id].is_pending() || s.orders[id].confirmed != s.orders[id].refunded,
{
}

/// Initialization happens exactly once: on an escrow without an admin it
/// succeeds and records the admin, and whoever asks again afterwards, and
/// whenever, is refused with `AlreadyInitialized` and changes nothing.
pub proof fn law_initialization_happens_once(
    s: EscrowState,
    first: Address,
    at: u64,
    second: Address,
    later: u64,
)
    requires
        s.admin is None,
    ensures
        s.initialize(first, at).1 is Ok,
        s.initialize(first, at).0.admin == Some(AdminData { admin: first, initialized: true }),
        s.initialize(first, at).0.initialize(second, later) == (
            s.initialize(first, at).0,
            Err::<(), CyloEscrowErrors>(CyloEscrowErrors::AlreadyInitialized),
        ),
{
}

/// No call removes or replaces the admin once one is on record: so every
/// initialization after the first fails, whatever happened in between.
pub proof fn law_admin_is_never_replaced(s: EscrowState, call: Call)
    requires
        s.wf(),
        s.admin is Some,
    ensures
        s.after(call).admin == s.admin,
{
    match call {
        Call::RefundExpiredOrders { start_id, limit, now, paid } => {
            law_batch_refund_marks_due_orders(s, start_id, limit, now, paid);
        },
        _ => {},
    }
}

/// A creation that fails leaves no trace on the ledger: no order, no id
/// taken, no entry in a list, no event. A refused one changes nothing at all;
/// one whose funds do not arrive adds the attempt to the history of
/// transfers.
pub proof fn law_failed_creation_leaves_no_trace(
    s: EscrowState,
    buyer: Address,
    farmer: Address,
    token: Address,
    amount: i128,
    metadata: soroban_sdk::String,
    moved: bool,
    now: u64,
)
    ensures
        amount <= 0 || buyer == farmer ==> s.create_order(
            buyer,
            farmer,
            token,
            amount,
            metadata,
            moved,
            now,
        ) == (s, Err::<u32, CyloEscrowErrors>(CyloEscrowErrors::InvalidInput)),
        s.create_order(buyer, farmer, token, amount, metadata, moved, now).1 is Err ==> ({
            let t = s.create_order(buyer, farmer, token, amount, metadata, moved, now).0;
            &&& t.orders == s.orders
            &&& t.last_order_id == s.last_order_id
            &&& t.buyer_orders == s.buyer_orders
            &&& t.farmer_orders == s.farmer_orders
            &&& t.events == s.events
            &&& t.admin == s.admin
            &&& t.custodian == s.custodian
        }),
{
}

/// An order is put on record only once its funds are in the custodian's
/// hands: a creation that succeeds has asked for the order's amount in the
/// order's token from the buyer to the custodian, and the funds have moved.
pub proof fn law_orders_are_funded(
    s: EscrowState,
    buyer: Address,
    farmer: Address,
    token: Address,
    amount: i128,
    metadata: soroban_sdk::String,
    moved: bool,
    now: u64,
)
    requires
        s.create_order(buyer, farmer, token, amount, metadata, moved, now).1 is Ok,
    ensures
        moved,
        ({
            let t = s.create_order(buyer, farmer, token, amount, metadata, moved, now).0;
            let id = s.next_id();
            &&& t.transfers == s.transfers.push(s.deposit(buyer, token, amount, true))
            &&& t.orders.dom().contains(id)
            &&& t.orders[id].is_pending()
            &&& t.orders[id].amount == amount
            &&& t.orders[id].token == token
            &&& t.orders[id].buyer == buyer
            &&& t.orders[id].farmer == farmer
            &&& t.orders[id].timestamp == now
        }),
{
}

/// No call but an initialization lets the id counter fall behind the orders
/// on record.
pub proof fn law_counter_stays_ahead(s: EscrowState, call: Call)
    requires
        s.wf(),
        s.counts_every_order(),
        !(call is Initialize),
    ensures
        s.after(call).counts_every_order(),
        s.after(call).last_order_id >= s.last_order_id,
{
    match call {
        Call::RefundExpiredOrders { start_id, limit, now, paid } => {
            law_batch_refund_marks_due_orders(s, start_id, limit, now, paid);
        },
        _ => {},
    }
}

/// Ids are given out densely and in rising order: in any run of calls without
/// an initialization, the creations that succeed get the ids that follow the
/// last one given out before the run, one after the other, however many
/// calls fail or do other things in between. On a new escrow these are 1, 2,
/// 3 and so on. The run must not exhaust the ids.
pub proof fn law_ids_are_dense(s: EscrowState, calls: Seq<Call>)
    requires
        s.wf(),
        forall|i: int| 0 <= i < calls.len() ==> !(#[trigger] calls[i] is Initialize),
        s.last_order_id + s.created_ids(calls).len() <= u32::MAX,
    ensures
        s.after_all(calls).wf(),
        s.after_all(calls).last_order_id == s.last_order_id + s.created_ids(calls).len(),
        forall|k: int|
            0 <= k < s.created_ids(calls).len() ==> #[trigger] s.created_ids(calls)[k]
                == s.last_order_id + k + 1,
    decreases calls.len(),
{
    if calls.len() > 0 {
        let earlier = calls.drop_last();
        assert forall|i: int| 0 <= i < earlier.len() implies !(#[trigger] earlier[i]
            is Initialize) by {
            assert(earlier[i] == calls[i]);
        }
        assert(s.created_ids(earlier).len() <= s.created_ids(calls).len());
        law_ids_are_dense(s, earlier);
        let before = s.after_all(earlier);
        law_calls_keep_the_escrow_in_order(before, calls.last());
        match calls.last() {
            Call::RefundExpiredOrders { start_id, limit, now, paid } => {
                law_batch_refund_marks_due_orders(before, start_id, limit, now, paid);
            },
            _ => {},
        }
    }
}

/// With the id counter ahead of every order and not at its end, a creation
/// gets an id that no order on record has: ids are not used twice.
pub proof fn law_new_ids_are_unused(s: EscrowState)
    requires
        s.counts_every_order(),
        s.last_order_id < u32::MAX,
    ensures
        !s.orders.dom().contains(s.next_id()),
        s.next_id() == s.last_order_id + 1,
{
}

/// An order stays on record with its terms: no call removes an order or
/// changes its id, principals, token, amount, creation time or text, and a
/// settlement that has happened is never taken back. A call settles an order
/// only if it was pending. The one call left out is the creation that the id
/// counter sends to an id in use.
pub proof fn law_orders_keep_their_terms(s: EscrowState, call: Call, id: u32)
    requires
        s.wf(),
        s.orders.dom().contains(id),
        call is CreateOrder ==> s.next_id() != id,
    ensures
        s.after(call).orders.dom().contains(id),
        s.after(call).orders[id].id == id,
        s.after(call).orders[id].buyer == s.orders[id].buyer,
        s.after(call).orders[id].farmer == s.orders[id].farmer,
        s.after(call).orders[id].token == s.orders[id].token,
        s.after(call).orders[id].amount == s.orders[id].amount,
        s.after(call).orders[id].timestamp == s.orders[id].timestamp,
        s.after(call).orders[id].metadata == s.orders[id].metadata,
        s.orders[id].confirmed ==> s.after(call).orders[id].confirmed,
        s.orders[id].refunded ==> s.after(call).orders[id].refunded,
        s.orders[id].is_settled() ==> s.after(call).orders[id] == s.orders[id],
{
    match call {
        Call::RefundExpiredOrders { start_id, limit, now, paid } => {
            law_batch_refund_marks_due_orders(s, start_id, limit, now, paid);
        },
        _ => {},
    }
}

/// The lists of orders only grow, and only at their end: after any call the
/// ids that were listed for a principal are still listed, in the same places.
pub proof fn law_lists_only_grow(s: EscrowState, call: Call, who: Address)
    requires
        s.wf(),
    ensures
        listed(s.buyer_orders, who).is_prefix_of(listed(s.after(call).buyer_orders, who)),
        listed(s.farmer_orders, who).is_prefix_of(listed(s.after(call).farmer_orders, who)),
{
    match call {
        Call::RefundExpiredOrders { start_id, limit, now, paid } => {
            law_batch_refund_marks_due_orders(s, start_id, limit, now, paid);
        },
        _ => {},
    }
}

/// A refund on request goes through once, and not before the refund window
/// has passed. Before `expiry_of` the order's creation time it fails with
/// `NotExpired` and changes nothing. From that instant on it succeeds if the
/// funds move, and the order is then refunded; any refund asked for after
/// that fails with `NotExpired` and changes nothing.
pub proof fn law_refund_happens_once(
    s: EscrowState,
    id: u32,
    now: u64,
    moved: bool,
    later: u64,
    moved_later: bool,
)
    requires
        s.wf(),
        s.orders.dom().contains(id),
        s.orders[id].is_pending(),
    ensures
        now < expiry_of(s.orders[id].timestamp) ==> s.refund_order(id, now, moved) == (
            s,
            Err::<(), CyloEscrowErrors>(CyloEscrowErrors::NotExpired),
        ),
        now >= expiry_of(s.orders[id].timestamp) ==> s.refund_order(id, now, true).1 is Ok
            && s.refund_order(id, now, true).0.orders[id] == s.orders[id].as_refunded()
            && s.refund_order(id, now, true).0.refund_order(id, later, moved_later) == (
            s.refund_order(id, now, true).0,
            Err::<(), CyloEscrowErrors>(CyloEscrowErrors::NotExpired),
        ),
        s.orders[id].timestamp + 345600 <= u64::MAX ==> expiry_of(s.orders[id].timestamp)
            == s.orders[id].timestamp + 345600,
{
}

/// A confirmation is refused with `AlreadyProcessed` for an order that is
/// settled, whether confirmed or refunded and whoever asks, and with
/// `Unauthorized` for a pending order of another buyer. Neither changes
/// anything.
pub proof fn law_confirmation_refusals(s: EscrowState, buyer: Address, id: u32, moved: bool)
    requires
        s.orders.dom().contains(id),
    ensures
        s.orders[id].confirmed || s.orders[id].refunded ==> s.confirm_receipt(buyer, id, moved)
            == (s, Err::<(), CyloEscrowErrors>(CyloEscrowErrors::AlreadyProcessed)),
        s.orders[id].is_pending() && s.orders[id].buyer != buyer ==> s.confirm_receipt(
            buyer,
            id,
            moved,
        ) == (s, Err::<(), CyloEscrowErrors>(CyloEscrowErrors::Unauthorized)),
{
}

/// A batch refund with a limit of 0, or that starts beyond the id given out
/// last, pays nothing out and changes nothing.
pub proof fn law_idle_batch_refund(
    s: EscrowState,
    start_id: u32,
    limit: u32,
    now: u64,
    paid: Set<u32>,
)
    requires
        limit == 0 || start_id > s.last_order_id,
    ensures
        s.refund_expired_orders(start_id, limit, now, paid) == (s, 0nat),
{
}

/// A principal has no orders listed on a new escrow, and a creation adds its
/// id to the lists of its buyer and its farmer and to no other list.
pub proof fn law_lists_follow_creations(
    s: EscrowState,
    buyer: Address,
    farmer: Address,
    token: Address,
    amount: i128,
    metadata: soroban_sdk::String,
    now: u64,
    who: Address,
)
    ensures
        EscrowState::empty(s.custodian).buyer_ids(who) == Seq::<u32>::empty(),
        EscrowState::empty(s.custodian).farmer_ids(who) == Seq::<u32>::empty(),
        s.recorded(buyer, farmer, token, amount, metadata, now).buyer_ids(buyer)
            == s.buyer_ids(buyer).push(s.next_id()),
        s.recorded(buyer, farmer, token, amount, metadata, now).farmer_ids(farmer)
            == s.farmer_ids(farmer).push(s.next_id()),
        who != buyer ==> s.recorded(buyer, farmer, token, amount, metadata, now).buyer_ids(who)
            == s.buyer_ids(who),
        who != farmer ==> s.recorded(buyer, farmer, token, amount, metadata, now).farmer_ids(who)
            == s.farmer_ids(who),
{
}

impl EscrowState {
    /// The order on record under its id accounts for the payout `t`: the
    /// order is confirmed and `t` is its release to the farmer, or it is
    /// refunded and `t` is its refund to the buyer.
    pub open spec fn accounts_for(self, t: Transfer) -> bool {
        &&& self.orders.dom().contains(t.order_id)
        &&& t.purpose == TransferPurpose::Release ==> self.orders[t.order_id].confirmed && t
            == self.release(self.orders[t.order_id], true)
        &&& t.purpose == TransferPurpose::Refund ==> self.orders[t.order_id].refunded && t
            == self.refund(self.orders[t.order_id], true)
    }

    /// Funds have left the custodian only as the rules allow: every transfer
    /// in the history that paid out is accounted for by its order, and no two
    /// of them paid out for the same order.
    pub open spec fn funds_left_in_order(self) -> bool {
        &&& forall|i: int|
            0 <= i < self.transfers.len() && (#[trigger] self.transfers[i]).paid_out(
                self.transfers[i].order_id,
            ) ==> self.accounts_for(self.transfers[i])
        &&& forall|i: int, j: int|
            0 <= i < j < self.transfers.len() && (#[trigger] self.transfers[i]).paid_out(
                self.transfers[i].order_id,
            ) && (#[trigger] self.transfers[j]).paid_out(self.transfers[j].order_id)
                ==> self.transfers[i].order_id != self.transfers[j].order_id
    }
}

/// One refund keeps the payouts in order.
proof fn lemma_refund_keeps_funds_in_order(s: EscrowState, id: u32, now: u64, moved: bool)
    requires
        s.wf(),
        s.funds_left_in_order(),
    ensures
        s.refund_if_expired(id, now, moved).0.funds_left_in_order(),
{
    let t = s.refund_if_expired(id, now, moved).0;
    if s.is_due(id, now) {
        assert forall|i: int| 0 <= i < s.transfers.len() implies t.transfers[i]
            == s.transfers[i] && (s.transfers[i].paid_out(s.transfers[i].order_id)
            ==> s.transfers[i].order_id != id) by {
            if s.transfers[i].paid_out(s.transfers[i].order_id) {
                assert(s.accounts_for(s.transfers[i]));
            }
        }
        assert forall|i: int|
            0 <= i < t.transfers.len() && (#[trigger] t.transfers[i]).paid_out(
                t.transfers[i].order_id,
            ) implies t.accounts_for(t.transfers[i]) by {
            if i < s.transfers.len() {
                assert(s.accounts_for(s.transfers[i]));
            }
        }
    }
}

/// A refund over a range of ids keeps the payouts in order.
proof fn lemma_refund_range_keeps_funds_in_order(
    s: EscrowState,
    lo: int,
    hi: int,
    now: u64,
    paid: Set<u32>,
)
    requires
        s.wf(),
        s.funds_left_in_order(),
        0 <= lo,
        hi <= u32::MAX,
    ensures
        s.refund_range(lo, hi, now, paid).0.funds_left_in_order(),
    decreases hi - lo + 1,
{
    if lo <= hi {
        lemma_refund_range_keeps_funds_in_order(s, lo, hi - 1, now, paid);
        law_refund_range_marks_due_orders(s, lo, hi - 1, now, paid);
        lemma_refund_keeps_funds_in_order(
            s.refund_range(lo, hi - 1, now, paid).0,
            hi as u32,
            now,
            paid.contains(hi as u32),
        );
    }
}

/// Funds leave the custodian once per order at most, and only as the order
/// was settled: to the farmer if it was confirmed, to the buyer if it was
/// refunded, in the order's token and amount. This holds of a new escrow and
/// every call keeps it. The one call left out is the creation that the id
/// counter sends to an id in use.
pub proof fn law_funds_leave_once(s: EscrowState, call: Call)
    requires
        s.wf(),
        s.funds_left_in_order(),
        call is CreateOrder ==> !s.orders.dom().contains(s.next_id()),
    ensures
        EscrowState::empty(s.custodian).funds_left_in_order(),
        s.after(call).funds_left_in_order(),
{
    let t = s.after(call);
    match call {
        Call::Initialize { admin, now } => {},
        Call::CreateOrder { buyer, farmer, token, amount, metadata, moved, now } => {
            assert forall|i: int| 0 <= i < s.transfers.len() implies t.transfers[i]
                == s.transfers[i] && (s.transfers[i].paid_out(s.transfers[i].order_id)
                ==> s.transfers[i].order_id != s.next_id()) by {
                if s.transfers[i].paid_out(s.transfers[i].order_id) {
                    assert(s.accounts_for(s.transfers[i]));
                }
            }
            assert forall|i: int|
                0 <= i < t.transfers.len() && (#[trigger] t.transfers[i]).paid_out(
                    t.transfers[i].order_id,
                ) implies t.accounts_for(t.transfers[i]) by {
                if i < s.transfers.len() {
                    assert(s.accounts_for(s.transfers[i]));
                }
            }
        },
        Call::ConfirmReceipt { buyer, order_id, moved } => {
            if s.confirm_refusal(buyer, order_id) is None {
                assert forall|i: int| 0 <= i < s.transfers.len() implies t.transfers[i]
                    == s.transfers[i] && (s.transfers[i].paid_out(s.transfers[i].order_id)
                    ==> s.transfers[i].order_id != order_id) by {
                    if s.transfers[i].paid_out(s.transfers[i].order_id) {
                        assert(s.accounts_for(s.transfers[i]));
                    }
                }
                assert forall|i: int|
                    0 <= i < t.transfers.len() && (#[trigger] t.transfers[i]).paid_out(
                        t.transfers[i].order_id,
                    ) implies t.accounts_for(t.transfers[i]) by {
                    if i < s.transfers.len() {
                        assert(s.accounts_for(s.transfers[i]));
                    }
                }
            }
        },
        Call::RefundOrder { order_id, now, moved } => {
            lemma_refund_keeps_funds_in_order(s, order_id, now, moved);
        },
        Call::RefundExpiredOrders { start_id, limit, now, paid } => {
            if !sweep_is_idle(s.last_order_id, start_id, limit) {
                lemma_refund_range_keeps_funds_in_order(
                    s,
                    start_id as int,
                    sweep_end(s.last_order_id, start_id, limit) as int,
                    now,
                    paid,
                );
            }
        },
    }
}

} // verus!
