//! The ledger and its operations.

use vstd::prelude::*;
use std::collections::HashMap;
use soroban_sdk::{Address, Env};
use crate::cylo_escrow_types::{AdminData, Order, OrderStatus};
use crate::errors::CyloEscrowErrors;
use crate::events::{ContractInitialized, EscrowEvent, OrderConfirmed, OrderCreated, OrderRefunded};
use crate::funds::{move_funds, Transfer, TransferPurpose};
use crate::host::{clone_address, id_list, ledger_timestamp, names_a_contract, same_address};
use crate::index::OrderIndex;
use crate::laws::law_batch_refund_marks_due_orders;
use crate::state::{
    appended, lemma_refund_range_reads_its_ids, sweep_covers, sweep_end, sweep_is_idle,
    EscrowState,
};

verus! {

broadcast use vstd::std_specs::hash::group_hash_axioms;

/// The escrow ledger: the orders, the id counter, the lists of orders by
/// buyer and by farmer, the admin record and the log of events that have not
/// been handed out yet.
///
/// Funds move through the token contract of each order, between the buyer or
/// farmer and the custodian account that the ledger was made for.
pub struct CyloEscrow {
    custodian: Address,
    admin: Option<AdminData>,
    last_order_id: u32,
    orders: HashMap<u32, Order>,
    buyer_orders: OrderIndex,
    farmer_orders: OrderIndex,
    events: Vec<EscrowEvent>,
    transfers: Ghost<Seq<Transfer>>,
}

impl View for CyloEscrow {
    type V = EscrowState;

    closed spec fn view(&self) -> EscrowState {
        EscrowState {
            custodian: self.custodian,
            admin: self.admin,
            last_order_id: self.last_order_id,
            orders: self.orders@,
            buyer_orders: self.buyer_orders@,
            farmer_orders: self.farmer_orders@,
            events: self.events@,
            transfers: self.transfers@,
        }
    }
}

impl CyloEscrow {
    /// Neither list of orders names a principal twice.
    pub closed spec fn indexes_wf(&self) -> bool {
        self.buyer_orders.wf() && self.farmer_orders.wf()
    }

    /// The ledger is in order: every order on record is valid and stands under
    /// its own id, and the lists are well formed.
    pub open spec fn wf(&self) -> bool {
        self@.wf() && self.indexes_wf()
    }

    /// An empty ledger whose funds are held by `custodian`.
    pub fn new(custodian: Address) -> (escrow: CyloEscrow)
        ensures
            escrow.wf(),
            escrow@ == EscrowState::empty(custodian),
    {
        CyloEscrow {
            custodian,
            admin: None,
            last_order_id: 0,
            orders: HashMap::new(),
            buyer_orders: OrderIndex::new(),
            farmer_orders: OrderIndex::new(),
            events: Vec::new(),
            transfers: Ghost(Seq::empty()),
        }
    }

    /// The account that holds the funds of pending orders.
    pub fn custodian(&self) -> (custodian: Address)
        ensures
            custodian == self@.custodian,
    {
        clone_address(&self.custodian)
    }

    /// Records `admin` as the admin, marked initialized.
    pub fn set_admin(&mut self, admin: &Address)
        requires
            old(self).wf(),
        ensures
            final(self).wf(),
            final(self)@ == (EscrowState {
                admin: Some(AdminData { admin: *admin, initialized: true }),
                ..old(self)@
            }),
    {
        self.admin = Some(AdminData { admin: clone_address(admin), initialized: true });
    }

    /// The admin record, once there is one.
    pub fn admin(&self) -> (admin: Option<AdminData>)
        ensures
            admin == self@.admin,
    {
        match &self.admin {
            Some(data) => Some(data.clone()),
            None => None,
        }
    }

    /// Sets the id counter: the next order gets the id after `id`.
    pub fn set_last_order_id(&mut self, id: u32)
        requires
            old(self).wf(),
        ensures
            final(self).wf(),
            final(self)@ == (EscrowState { last_order_id: id, ..old(self)@ }),
    {
        self.last_order_id = id;
    }

    /// Takes the next id: one more than the last, stopping at the largest
    /// `u32`.
    pub fn next_order_id(&mut self) -> (id: u32)
        requires
            old(self).wf(),
        ensures
            final(self).wf(),
            id == old(self)@.next_id(),
            id >= 1,
            final(self)@ == (EscrowState { last_order_id: id, ..old(self)@ }),
    {
        let next = self.last_order_id.saturating_add(1);
        self.last_order_id = next;
        next
    }

    /// The id given out last; 0 before the first.
    pub fn last_order_id(&self) -> (id: u32)
        ensures
            id == self@.last_order_id,
    {
        self.last_order_id
    }

    /// Puts `order` on record under its id, in place of any order that stood
    /// there.
    pub fn save_order(&mut self, order: Order)
        requires
            old(self).wf(),
            order.valid(),
        ensures
            final(self).wf(),
            final(self)@ == old(self)@.with_order(order),
    {
        self.orders.insert(order.id, order);
    }

    /// The order on record under `id`, if there is one.
    pub fn load_order(&self, id: u32) -> (order: Option<Order>)
        ensures
            order == if self@.orders.dom().contains(id) {
                Some(self@.orders[id])
            } else {
                None::<Order>
            },
    {
        match self.orders.get(&id) {
            Some(order) => Some(order.clone()),
            None => None,
        }
    }

    /// Adds `id` at the end of the orders of `buyer`.
    pub fn add_buyer_order(&mut self, env: &Env, buyer: &Address, id: u32)
        requires
            old(self).wf(),
            old(self)@.buyer_ids(*buyer).len() < u32::MAX,
        ensures
            final(self).wf(),
            final(self)@ == (EscrowState {
                buyer_orders: appended(old(self)@.buyer_orders, *buyer, id),
                ..old(self)@
            }),
    {
        self.buyer_orders.append(env, buyer, id);
    }

    /// Adds `id` at the end of the orders of `farmer`.
    pub fn add_farmer_order(&mut self, env: &Env, farmer: &Address, id: u32)
        requires
            old(self).wf(),
            old(self)@.farmer_ids(*farmer).len() < u32::MAX,
        ensures
            final(self).wf(),
            final(self)@ == (EscrowState {
                farmer_orders: appended(old(self)@.farmer_orders, *farmer, id),
                ..old(self)@
            }),
    {
        self.farmer_orders.append(env, farmer, id);
    }

    /// Records `ids` as the whole list of the orders of `buyer`.
    pub fn put_buyer_orders(&mut self, buyer: &Address, ids: soroban_sdk::Vec<u32>)
        requires
            old(self).wf(),
        ensures
            final(self).wf(),
            final(self)@ == (EscrowState {
                buyer_orders: old(self)@.buyer_orders.insert(*buyer, id_list(ids)),
                ..old(self)@
            }),
    {
        self.buyer_orders.put(buyer, ids);
    }

    /// Records `ids` as the whole list of the orders of `farmer`.
    pub fn put_farmer_orders(&mut self, farmer: &Address, ids: soroban_sdk::Vec<u32>)
        requires
            old(self).wf(),
        ensures
            final(self).wf(),
            final(self)@ == (EscrowState {
                farmer_orders: old(self)@.farmer_orders.insert(*farmer, id_list(ids)),
                ..old(self)@
            }),
    {
        self.farmer_orders.put(farmer, ids);
    }

    /// Whether an order of `buyer` for `farmer` can still be listed: each of
    /// the two lists holds fewer ids than a list can take.
    pub fn has_room(&self, buyer: &Address, farmer: &Address) -> (room: bool)
        requires
            self.wf(),
        ensures
            room == self@.has_room(*buyer, *farmer),
    {
        self.buyer_orders.count(buyer) < u32::MAX && self.farmer_orders.count(farmer) < u32::MAX
    }

    /// Adds `event` to the log.
    fn emit(&mut self, event: EscrowEvent)
        requires
            old(self).wf(),
        ensures
            final(self).wf(),
            final(self)@ == old(self)@.with_event(event),
    {
        self.events.push(event);
    }

    /// Asks the token contract `token` to move `amount` from `from` to `to`
    /// for order `order_id`, notes the transfer in the history and tells
    /// whether the funds moved.
    fn transfer(
        &mut self,
        env: &Env,
        purpose: TransferPurpose,
        order_id: u32,
        token: &Address,
        from: &Address,
        to: &Address,
        amount: i128,
    ) -> (moved: bool)
        requires
            old(self).wf(),
        ensures
            final(self).wf(),
            final(self)@ == old(self)@.with_transfer(
                Transfer { purpose, order_id, token: *token, from: *from, to: *to, amount, moved },
            ),
            !names_a_contract(*token) ==> !moved,
    {
        let moved = move_funds(env, token, from, to, amount);
        proof {
            self.transfers@ = self.transfers@.push(
                Transfer { purpose, order_id, token: *token, from: *from, to: *to, amount, moved },
            );
        }
        moved
    }

    /// Hands out the logged events, oldest first, and empties the log.
    pub fn take_events(&mut self) -> (events: Vec<EscrowEvent>)
        requires
            old(self).wf(),
        ensures
            final(self).wf(),
            events@ == old(self)@.events,
            final(self)@ == (EscrowState { events: Seq::empty(), ..old(self)@ }),
    {
        let mut events: Vec<EscrowEvent> = Vec::new();
        std::mem::swap(&mut self.events, &mut events);
        events
    }
}

impl CyloEscrow {
    /// Closes an operation whose funds were due to move: where they moved,
    /// `event` is logged; where they did not, the operation fails with
    /// `TransferFailed` and nothing is logged.
    pub fn conclude(&mut self, event: EscrowEvent, moved: bool) -> (r: Result<
        (),
        CyloEscrowErrors,
    >)
        requires
            old(self).wf(),
        ensures
            final(self).wf(),
            moved ==> r == Ok::<(), CyloEscrowErrors>(()) && final(self)@ == old(self)@.with_event(
                event,
            ),
            !moved ==> r == Err::<(), CyloEscrowErrors>(CyloEscrowErrors::TransferFailed)
                && final(self)@ == old(self)@,
    {
        if moved {
            self.emit(event);
            Ok(())
        } else {
            Err(CyloEscrowErrors::TransferFailed)
        }
    }

    /// Puts on record, at `now`, an order whose funds the custodian has
    /// received: takes the next id, stores the order as pending, lists it for
    /// its buyer and its farmer, and logs the event. Returns the id.
    pub fn record_order(
        &mut self,
        env: &Env,
        buyer: Address,
        farmer: Address,
        token: Address,
        amount: i128,
        metadata: soroban_sdk::String,
        now: u64,
    ) -> (id: u32)
        requires
            old(self).wf(),
            amount > 0,
            buyer != farmer,
            old(self)@.has_room(buyer, farmer),
        ensures
            final(self).wf(),
            id == old(self)@.next_id(),
            final(self)@ == old(self)@.recorded(buyer, farmer, token, amount, metadata, now),
    {
        let id = self.next_order_id();
        let order = Order {
            id,
            buyer: clone_address(&buyer),
            farmer: clone_address(&farmer),
            token: clone_address(&token),
            amount,
            timestamp: now,
            confirmed: false,
            refunded: false,
            metadata,
        };
        self.save_order(order);
        self.add_buyer_order(env, &buyer, id);
        self.add_farmer_order(env, &farmer, id);
        self.emit(EscrowEvent::Created(OrderCreated { id, buyer, farmer, token, amount }));
        id
    }

    /// Creates an order of `buyer` for `farmer` and locks `amount` of `token`
    /// for it. The amount must be positive and the two principals distinct,
    /// else the creation is refused with `InvalidInput`. The funds are pulled
    /// from the buyer to the custodian first: if that fails the creation fails
    /// with `TransferFailed`. Only then is the order put on record, with the
    /// ledger's time as its creation time. A creation that is refused changes
    /// nothing; one whose funds do not arrive leaves nothing but the attempt
    /// in the history of transfers.
    pub fn create_order(
        &mut self,
        env: &Env,
        buyer: Address,
        farmer: Address,
        token: Address,
        amount: i128,
        metadata: soroban_sdk::String,
    ) -> (r: Result<u32, CyloEscrowErrors>)
        requires
            old(self).wf(),
            old(self)@.has_room(buyer, farmer),
        ensures
            final(self).wf(),
            exists|moved: bool, now: u64| #[trigger]
                old(self)@.create_order(buyer, farmer, token, amount, metadata, moved, now) == (
                    final(self)@,
                    r,
                ),
            amount <= 0 || buyer == farmer ==> r == Err::<u32, CyloEscrowErrors>(
                CyloEscrowErrors::InvalidInput,
            ) && final(self)@ == old(self)@,
            amount > 0 && buyer != farmer && !names_a_contract(token) ==> r == Err::<
                u32,
                CyloEscrowErrors,
            >(CyloEscrowErrors::TransferFailed),
            r == Err::<u32, CyloEscrowErrors>(CyloEscrowErrors::TransferFailed) ==> final(self)@
                == old(self)@.with_transfer(old(self)@.deposit(buyer, token, amount, false)),
            r matches Ok(id) ==> id == old(self)@.next_id() && final(self)@.last_order_id == id,
    {
        if amount <= 0 {
            assert(old(self)@.create_order(buyer, farmer, token, amount, metadata, false, 0) == (
                self@,
                Err::<u32, CyloEscrowErrors>(CyloEscrowErrors::InvalidInput),
            ));
            return Err(CyloEscrowErrors::InvalidInput);
        }
        if same_address(&buyer, &farmer) {
            assert(old(self)@.create_order(buyer, farmer, token, amount, metadata, false, 0) == (
                self@,
                Err::<u32, CyloEscrowErrors>(CyloEscrowErrors::InvalidInput),
            ));
            return Err(CyloEscrowErrors::InvalidInput);
        }
        let id = self.last_order_id.saturating_add(1);
        let custodian = clone_address(&self.custodian);
        if !self.transfer(env, TransferPurpose::Deposit, id, &token, &buyer, &custodian, amount) {
            assert(old(self)@.create_order(buyer, farmer, token, amount, metadata, false, 0) == (
                self@,
                Err::<u32, CyloEscrowErrors>(CyloEscrowErrors::TransferFailed),
            ));
            return Err(CyloEscrowErrors::TransferFailed);
        }
        let now = ledger_timestamp(env);
        let id = self.record_order(env, buyer, farmer, token, amount, metadata, now);
        assert(old(self)@.create_order(buyer, farmer, token, amount, metadata, true, now) == (
            self@,
            Ok::<u32, CyloEscrowErrors>(id),
        ));
        Ok(id)
    }

    /// Confirms order `order_id` on behalf of `buyer` and releases its funds
    /// to the farmer. Fails with `InvalidOrderId` where there is no such
    /// order, with `AlreadyProcessed` where it is settled, with
    /// `Unauthorized` where it belongs to another buyer; none of these
    /// changes anything. Otherwise the order is marked confirmed, and then the
    /// funds move from the custodian to the farmer. If they do not move the
    /// call fails with `TransferFailed` and the order stays confirmed.
    pub fn confirm_receipt(&mut self, env: &Env, buyer: Address, order_id: u32) -> (r: Result<
        (),
        CyloEscrowErrors,
    >)
        requires
            old(self).wf(),
        ensures
            final(self).wf(),
            old(self)@.confirm_receipt(buyer, order_id, true) == (final(self)@, r)
                || old(self)@.confirm_receipt(buyer, order_id, false) == (final(self)@, r),
            old(self)@.confirm_refusal(buyer, order_id) matches Some(e) ==> r == Err::<
                (),
                CyloEscrowErrors,
            >(e) && final(self)@ == old(self)@,
            old(self)@.confirm_refusal(buyer, order_id) is None ==> {
                &&& final(self)@.orders == old(self)@.orders.insert(
                    order_id,
                    old(self)@.orders[order_id].as_confirmed(),
                )
                &&& r is Ok || r == Err::<(), CyloEscrowErrors>(CyloEscrowErrors::TransferFailed)
            },
    {
        let mut order = match self.load_order(order_id) {
            Some(order) => order,
            None => {
                return Err(CyloEscrowErrors::InvalidOrderId);
            },
        };
        if order.refunded || order.confirmed {
            return Err(CyloEscrowErrors::AlreadyProcessed);
        }
        if !same_address(&order.buyer, &buyer) {
            return Err(CyloEscrowErrors::Unauthorized);
        }
        order.confirmed = true;
        self.save_order(order.clone());
        let custodian = clone_address(&self.custodian);
        let moved = self.transfer(
            env,
            TransferPurpose::Release,
            order_id,
            &order.token,
            &custodian,
            &order.farmer,
            order.amount,
        );
        self.conclude(EscrowEvent::Confirmed(OrderConfirmed { id: order_id }), moved)
    }

    /// Refunds order `id` if it is due at `now`. Fails with `InvalidOrderId`
    /// where there is no such order. Returns `false`, changing nothing, where
    /// the order is settled or its refund window has not passed. Otherwise the
    /// order is marked refunded, and then the funds move from the custodian
    /// to the buyer: `true` if they move; if not, the call fails with
    /// `TransferFailed` and the order stays refunded.
    pub fn refund_if_expired_at(&mut self, env: &Env, id: u32, now: u64) -> (r: Result<
        bool,
        CyloEscrowErrors,
    >)
        requires
            old(self).wf(),
        ensures
            final(self).wf(),
            old(self)@.refund_if_expired(id, now, true) == (final(self)@, r)
                || old(self)@.refund_if_expired(id, now, false) == (final(self)@, r),
            !old(self)@.is_due(id, now) ==> final(self)@ == old(self)@,
            old(self)@.is_due(id, now) ==> final(self)@.orders == old(self)@.orders.insert(
                id,
                old(self)@.orders[id].as_refunded(),
            ),
    {
        let mut order = match self.load_order(id) {
            Some(order) => order,
            None => {
                return Err(CyloEscrowErrors::InvalidOrderId);
            },
        };
        if order.refunded || order.confirmed {
            return Ok(false);
        }
        if now < order.expiry() {
            return Ok(false);
        }
        order.refunded = true;
        self.save_order(order.clone());
        let custodian = clone_address(&self.custodian);
        let moved = self.transfer(
            env,
            TransferPurpose::Refund,
            id,
            &order.token,
            &custodian,
            &order.buyer,
            order.amount,
        );
        match self.conclude(EscrowEvent::Refunded(OrderRefunded { id }), moved) {
            Ok(()) => Ok(true),
            Err(e) => Err(e),
        }
    }

    /// Refunds order `id` if it is due at the ledger's time: see
    /// `refund_if_expired_at`.
    pub fn refund_if_expired(&mut self, env: &Env, id: u32) -> (r: Result<bool, CyloEscrowErrors>)
        requires
            old(self).wf(),
        ensures
            final(self).wf(),
            exists|now: u64, moved: bool| #[trigger]
                old(self)@.refund_if_expired(id, now, moved) == (final(self)@, r),
            !old(self)@.orders.dom().contains(id) ==> r == Err::<bool, CyloEscrowErrors>(
                CyloEscrowErrors::InvalidOrderId,
            ),
            old(self)@.orders.dom().contains(id) && old(self)@.orders[id].is_settled() ==> r
                == Ok::<bool, CyloEscrowErrors>(false) && final(self)@ == old(self)@,
    {
        let now = ledger_timestamp(env);
        self.refund_if_expired_at(env, id, now)
    }

    /// Refunds order `order_id` to its buyer at `now`. Anyone may ask. Fails
    /// with `InvalidOrderId` where there is no such order, with `NotExpired`
    /// where the order is settled or its refund window has not passed, and
    /// with `TransferFailed` where the funds do not move, in which case the
    /// order stays refunded.
    pub fn refund_order_at(&mut self, env: &Env, order_id: u32, now: u64) -> (r: Result<
        (),
        CyloEscrowErrors,
    >)
        requires
            old(self).wf(),
        ensures
            final(self).wf(),
            old(self)@.refund_order(order_id, now, true) == (final(self)@, r)
                || old(self)@.refund_order(order_id, now, false) == (final(self)@, r),
            !old(self)@.orders.dom().contains(order_id) ==> r == Err::<(), CyloEscrowErrors>(
                CyloEscrowErrors::InvalidOrderId,
            ),
            old(self)@.orders.dom().contains(order_id) && !old(self)@.is_due(order_id, now) ==> r
                == Err::<(), CyloEscrowErrors>(CyloEscrowErrors::NotExpired),
            !old(self)@.is_due(order_id, now) ==> final(self)@ == old(self)@,
            old(self)@.is_due(order_id, now) ==> final(self)@.orders == old(self)@.orders.insert(
                order_id,
                old(self)@.orders[order_id].as_refunded(),
            ) && (r is Ok || r == Err::<(), CyloEscrowErrors>(CyloEscrowErrors::TransferFailed)),
    {
        match self.refund_if_expired_at(env, order_id, now) {
            Ok(true) => Ok(()),
            Ok(false) => Err(CyloEscrowErrors::NotExpired),
            Err(e) => Err(e),
        }
    }

    /// Refunds order `order_id` to its buyer at the ledger's time: see
    /// `refund_order_at`.
    pub fn refund_order(&mut self, env: &Env, order_id: u32) -> (r: Result<(), CyloEscrowErrors>)
        requires
            old(self).wf(),
        ensures
            final(self).wf(),
            exists|now: u64, moved: bool| #[trigger]
                old(self)@.refund_order(order_id, now, moved) == (final(self)@, r),
            !old(self)@.orders.dom().contains(order_id) ==> r == Err::<(), CyloEscrowErrors>(
                CyloEscrowErrors::InvalidOrderId,
            ),
            old(self)@.orders.dom().contains(order_id) && old(self)@.orders[order_id].is_settled()
                ==> r == Err::<(), CyloEscrowErrors>(CyloEscrowErrors::NotExpired)
                && final(self)@ == old(self)@,
    {
        let now = ledger_timestamp(env);
        self.refund_order_at(env, order_id, now)
    }

    /// Refunds, at `now`, every due order among up to `limit` ids from
    /// `start_id` on, in rising order and none beyond the id given out last.
    /// An id without an order, an order that is not due and a refund whose
    /// funds do not move are passed over. Returns how many refunds were paid
    /// out. With `limit` 0, with no id given out yet or with `start_id` beyond
    /// the last, nothing is looked at and 0 is returned.
    pub fn refund_expired_orders_at(
        &mut self,
        env: &Env,
        start_id: u32,
        limit: u32,
        now: u64,
    ) -> (r: Result<u32, CyloEscrowErrors>)
        requires
            old(self).wf(),
        ensures
            final(self).wf(),
            r is Ok,
            exists|paid: Set<u32>| #[trigger]
                old(self)@.refund_expired_orders(start_id, limit, now, paid) == (
                    final(self)@,
                    r->Ok_0 as nat,
                ),
            sweep_is_idle(old(self)@.last_order_id, start_id, limit) ==> r == Ok::<
                u32,
                CyloEscrowErrors,
            >(0) && final(self)@ == old(self)@,
            final(self)@.orders.dom() == old(self)@.orders.dom(),
            forall|id: u32| #[trigger]
                old(self)@.orders.dom().contains(id) ==> final(self)@.orders[id] == if sweep_covers(
                    old(self)@.last_order_id,
                    start_id,
                    limit,
                    id,
                ) && old(self)@.orders[id].is_due(now) {
                    old(self)@.orders[id].as_refunded()
                } else {
                    old(self)@.orders[id]
                },
            final(self)@.events.len() == old(self)@.events.len() + r->Ok_0,
            r->Ok_0 <= limit,
            (forall|id: u32|
                sweep_covers(old(self)@.last_order_id, start_id, limit, id)
                    ==> !#[trigger] old(self)@.is_due(id, now)) ==> r->Ok_0 == 0,
    {
        let last = self.last_order_id();
        if last == 0 || start_id > last || limit == 0 {
            assert(old(self)@.refund_expired_orders(start_id, limit, now, Set::<u32>::empty()) == (
                self@,
                0nat,
            ));
            return Ok(0);
        }
        let reach = start_id.saturating_add(limit.saturating_sub(1));
        let end = if reach > last {
            last
        } else {
            reach
        };
        assert(end == sweep_end(last, start_id, limit));
        let ghost start = self@;
        let ghost mut paid: Set<u32> = Set::empty();
        let mut processed: u32 = 0;
        let mut i: u32 = start_id;
        loop
            invariant_except_break
                start_id <= i <= end,
                self@ == start.refund_range(start_id as int, i - 1, now, paid).0,
                processed == start.refund_range(start_id as int, i - 1, now, paid).1,
                processed <= i - start_id,
                start_id == 0 && i > 0 ==> processed <= i - 1,
            invariant
                self.wf(),
            ensures
                self@ == start.refund_range(start_id as int, end as int, now, paid).0,
                processed == start.refund_range(start_id as int, end as int, now, paid).1,
            decreases end - i,
        {
            let ghost before = self@;
            let ghost asked = paid;
            let outcome = self.refund_if_expired_at(env, i, now);
            proof {
                let moved = before.refund_if_expired(i, now, true) == (self@, outcome);
                paid =
                if moved {
                    asked.insert(i)
                } else {
                    asked.remove(i)
                };
                lemma_refund_range_reads_its_ids(start, start_id as int, i - 1, now, asked, paid);
                assert(before.refund_if_expired(i, now, paid.contains(i)) == (self@, outcome));
            }
            if let Ok(true) = outcome {
                assert(before.orders.dom().contains(i) && i >= 1);
                processed = processed + 1;
            }
            if i >= end {
                break ;
            }
            i = i + 1;
        }
        assert(old(self)@.refund_expired_orders(start_id, limit, now, paid) == (
            self@,
            processed as nat,
        ));
        proof {
            law_batch_refund_marks_due_orders(start, start_id, limit, now, paid);
        }
        Ok(processed)
    }

    /// Refunds the due orders of a range of ids at the ledger's time: see
    /// `refund_expired_orders_at`.
    pub fn refund_expired_orders(&mut self, env: &Env, start_id: u32, limit: u32) -> (r: Result<
        u32,
        CyloEscrowErrors,
    >)
        requires
            old(self).wf(),
        ensures
            final(self).wf(),
            r is Ok,
            exists|now: u64, paid: Set<u32>| #[trigger]
                old(self)@.refund_expired_orders(start_id, limit, now, paid) == (
                    final(self)@,
                    r->Ok_0 as nat,
                ),
            sweep_is_idle(old(self)@.last_order_id, start_id, limit) ==> r == Ok::<
                u32,
                CyloEscrowErrors,
            >(0) && final(self)@ == old(self)@,
    {
        let now = ledger_timestamp(env);
        self.refund_expired_orders_at(env, start_id, limit, now)
    }

    /// The ids of the orders of `buyer`, oldest first; an empty list for a
    /// principal who has none.
    pub fn get_orders_by_buyer(&self, env: &Env, buyer: Address) -> (ids: soroban_sdk::Vec<u32>)
        requires
            self.wf(),
        ensures
            id_list(ids) == self@.buyer_ids(buyer),
            !self@.buyer_orders.dom().contains(buyer) ==> id_list(ids) == Seq::<u32>::empty(),
    {
        self.buyer_orders.ids(env, &buyer)
    }

    /// The ids of the orders of `farmer`, oldest first; an empty list for a
    /// principal who has none.
    pub fn get_orders_by_farmer(&self, env: &Env, farmer: Address) -> (ids: soroban_sdk::Vec<u32>)
        requires
            self.wf(),
        ensures
            id_list(ids) == self@.farmer_ids(farmer),
            !self@.farmer_orders.dom().contains(farmer) ==> id_list(ids) == Seq::<u32>::empty(),
    {
        self.farmer_orders.ids(env, &farmer)
    }

    /// The order on record under `order_id`; `InvalidOrderId` where there is
    /// none.
    pub fn get_order_details(&self, order_id: u32) -> (r: Result<Order, CyloEscrowErrors>)
        ensures
            r == if self@.orders.dom().contains(order_id) {
                Ok::<Order, CyloEscrowErrors>(self@.orders[order_id])
            } else {
                Err::<Order, CyloEscrowErrors>(CyloEscrowErrors::InvalidOrderId)
            },
    {
        match self.load_order(order_id) {
            Some(order) => Ok(order),
            None => Err(CyloEscrowErrors::InvalidOrderId),
        }
    }

    /// The summary of order `order_id` at `now`; `InvalidOrderId` where there
    /// is no such order.
    pub fn get_order_status_at(&self, order_id: u32, now: u64) -> (r: Result<
        OrderStatus,
        CyloEscrowErrors,
    >)
        ensures
            r == if self@.orders.dom().contains(order_id) {
                Ok::<OrderStatus, CyloEscrowErrors>(self@.orders[order_id].status_at(now))
            } else {
                Err::<OrderStatus, CyloEscrowErrors>(CyloEscrowErrors::InvalidOrderId)
            },
    {
        match self.orders.get(&order_id) {
            Some(order) => Ok(order.status(now)),
            None => Err(CyloEscrowErrors::InvalidOrderId),
        }
    }

    /// The summary of order `order_id` at the ledger's time: see
    /// `get_order_status_at`.
    pub fn get_order_status(&self, env: &Env, order_id: u32) -> (r: Result<
        OrderStatus,
        CyloEscrowErrors,
    >)
        ensures
            !self@.orders.dom().contains(order_id) ==> r == Err::<OrderStatus, CyloEscrowErrors>(
                CyloEscrowErrors::InvalidOrderId,
            ),
            self@.orders.dom().contains(order_id) ==> exists|now: u64|
                r == Ok::<OrderStatus, CyloEscrowErrors>(
                    #[trigger] self@.orders[order_id].status_at(now),
                ),
    {
        let now = ledger_timestamp(env);
        self.get_order_status_at(order_id, now)
    }

    /// Initializes the ledger for `admin` at `now`. Fails with
    /// `AlreadyInitialized`, changing nothing, once an admin is on record.
    /// Otherwise the admin is recorded, the id counter starts again at 0 and
    /// the event is logged.
    pub fn initialize_at(&mut self, admin: Address, now: u64) -> (r: Result<(), CyloEscrowErrors>)
        requires
            old(self).wf(),
        ensures
            final(self).wf(),
            old(self)@.initialize(admin, now) == (final(self)@, r),
            r is Ok <==> old(self)@.admin is None,
    {
        if self.admin.is_some() {
            return Err(CyloEscrowErrors::AlreadyInitialized);
        }
        self.set_admin(&admin);
        self.set_last_order_id(0);
        self.emit(EscrowEvent::Initialized(ContractInitialized { timestamp: now, admin }));
        Ok(())
    }

    /// Initializes the ledger for `admin` at the ledger's time: see
    /// `initialize_at`.
    pub fn initialize(&mut self, env: &Env, admin: Address) -> (r: Result<(), CyloEscrowErrors>)
        requires
            old(self).wf(),
        ensures
            final(self).wf(),
            exists|now: u64| #[trigger] old(self)@.initialize(admin, now) == (final(self)@, r),
            r is Ok <==> old(self)@.admin is None,
            r is Err ==> r == Err::<(), CyloEscrowErrors>(CyloEscrowErrors::AlreadyInitialized)
                && final(self)@ == old(self)@,
            r is Ok ==> final(self)@.admin == Some(AdminData { admin, initialized: true })
                && final(self)@.last_order_id == 0,
    {
        let now = ledger_timestamp(env);
        self.initialize_at(admin, now)
    }
}

} // verus!
