use cylo_escrow::{
    ContractInitialized, CyloEscrow, CyloEscrowErrors, EscrowEvent, OrderConfirmed, OrderCreated,
    OrderRefunded, EXPIRATION_PERIOD,
};
use soroban_sdk::testutils::{Address as _, EnvTestConfig, Ledger as _};
use soroban_sdk::token::{StellarAssetClient, TokenClient};
use soroban_sdk::{Address, Env, String};

struct World {
    env: Env,
    escrow: CyloEscrow,
    admin: Address,
    buyer: Address,
    farmer: Address,
    token: Address,
    custodian: Address,
}

fn setup() -> World {
    let env = Env::new_with_config(EnvTestConfig { capture_snapshot_at_drop: false });
    env.mock_all_auths();
    let admin = Address::generate(&env);
    let buyer = Address::generate(&env);
    let farmer = Address::generate(&env);
    let custodian = Address::generate(&env);
    let token = env.register_stellar_asset_contract_v2(admin.clone()).address();
    StellarAssetClient::new(&env, &token).mint(&buyer, &1_000_000);
    let escrow = CyloEscrow::new(custodian.clone());
    World { env, escrow, admin, buyer, farmer, token, custodian }
}

fn advance_time(env: &Env, seconds: u64) {
    let now = env.ledger().timestamp();
    env.ledger().set_timestamp(now + seconds);
}

fn balance(w: &World, who: &Address) -> i128 {
    TokenClient::new(&w.env, &w.token).balance(who)
}

fn order(w: &mut World, amount: i128, text: &str) -> Result<u32, CyloEscrowErrors> {
    let metadata = String::from_str(&w.env, text);
    w.escrow.create_order(
        &w.env,
        w.buyer.clone(),
        w.farmer.clone(),
        w.token.clone(),
        amount,
        metadata,
    )
}

#[test]
fn test_init() {
    let mut w = setup();
    let res = w.escrow.initialize(&w.env, w.admin.clone());
    assert_eq!(res, Ok(()));
    let res = w.escrow.initialize(&w.env, w.admin.clone());
    assert_eq!(res, Err(CyloEscrowErrors::AlreadyInitialized));
}

#[test]
fn test_create_order() {
    let mut w = setup();
    w.escrow.initialize(&w.env, w.admin.clone()).unwrap();

    let order_id = order(&mut w, 100, "Test Order").unwrap();
    assert_eq!(order_id, 1);

    let err = order(&mut w, 0, "Invalid");
    assert_eq!(err, Err(CyloEscrowErrors::InvalidInput));

    let metadata = String::from_str(&w.env, "Self");
    let err = w.escrow.create_order(
        &w.env,
        w.buyer.clone(),
        w.buyer.clone(),
        w.token.clone(),
        50,
        metadata,
    );
    assert_eq!(err, Err(CyloEscrowErrors::InvalidInput));
}

#[test]
fn test_confirm_receipt() {
    let mut w = setup();
    w.escrow.initialize(&w.env, w.admin.clone()).unwrap();
    let order_id = order(&mut w, 100, "Order").unwrap();

    w.escrow.confirm_receipt(&w.env, w.buyer.clone(), order_id).unwrap();

    let err = w.escrow.confirm_receipt(&w.env, w.buyer.clone(), order_id);
    assert_eq!(err, Err(CyloEscrowErrors::AlreadyProcessed));

    let second = order(&mut w, 100, "Second").unwrap();
    let wrong = Address::generate(&w.env);
    let err = w.escrow.confirm_receipt(&w.env, wrong, second);
    assert_eq!(err, Err(CyloEscrowErrors::Unauthorized));
}

#[test]
fn test_refund_order() {
    let mut w = setup();
    w.escrow.initialize(&w.env, w.admin.clone()).unwrap();
    let order_id = order(&mut w, 150, "Refund Test").unwrap();

    let res = w.escrow.refund_order(&w.env, order_id);
    assert_eq!(res, Err(CyloEscrowErrors::NotExpired));

    advance_time(&w.env, EXPIRATION_PERIOD + 10);

    w.escrow.refund_order(&w.env, order_id).unwrap();

    let res = w.escrow.refund_order(&w.env, order_id);
    assert_eq!(res, Err(CyloEscrowErrors::NotExpired));
}

#[test]
fn test_refund_expired_orders() {
    let mut w = setup();
    w.escrow.initialize(&w.env, w.admin.clone()).unwrap();
    for _ in 0..3 {
        order(&mut w, 100, "Batch").unwrap();
    }
    advance_time(&w.env, EXPIRATION_PERIOD + 1);

    let processed = w.escrow.refund_expired_orders(&w.env, 1, 5).unwrap();
    assert_eq!(processed, 3);
    for id in 1..=3 {
        let status = w.escrow.get_order_status(&w.env, id).unwrap();
        assert!(status.is_refunded);
        assert!(!status.is_confirmed);
    }
    assert_eq!(balance(&w, &w.buyer), 1_000_000);
    assert_eq!(balance(&w, &w.custodian), 0);
}

#[test]
fn test_get_orders_by_buyer_and_farmer() {
    let mut w = setup();
    w.escrow.initialize(&w.env, w.admin.clone()).unwrap();
    let id1 = order(&mut w, 100, "O1").unwrap();
    let id2 = order(&mut w, 200, "O2").unwrap();

    let buyer_orders = w.escrow.get_orders_by_buyer(&w.env, w.buyer.clone());
    assert!(buyer_orders.contains(&id1) && buyer_orders.contains(&id2));

    let farmer_orders = w.escrow.get_orders_by_farmer(&w.env, w.farmer.clone());
    assert!(farmer_orders.contains(&id1) && farmer_orders.contains(&id2));
}

#[test]
fn test_get_order_details_and_status() {
    let mut w = setup();
    w.escrow.initialize(&w.env, w.admin.clone()).unwrap();
    let order_id = order(&mut w, 500, "Details").unwrap();

    let order = w.escrow.get_order_details(order_id).unwrap();
    assert_eq!(order.amount, 500);
    assert!(!order.confirmed && !order.refunded);

    let status = w.escrow.get_order_status(&w.env, order_id).unwrap();
    assert!(!status.is_confirmed);
    assert!(!status.is_refunded);
    assert!(!status.is_expired);
    assert!(status.time_remaining > 0);

    advance_time(&w.env, EXPIRATION_PERIOD + 1);
    let expired_status = w.escrow.get_order_status(&w.env, order_id).unwrap();
    assert!(expired_status.is_expired);
    assert_eq!(expired_status.time_remaining, 0);
    assert!(!expired_status.is_confirmed);
    assert!(!expired_status.is_refunded);
}

#[test]
fn initialization_records_admin_and_logs_event() {
    let mut w = setup();
    assert_eq!(w.escrow.admin(), None);
    w.env.ledger().set_timestamp(1234);
    w.escrow.initialize(&w.env, w.admin.clone()).unwrap();
    let data = w.escrow.admin().unwrap();
    assert_eq!(data.admin, w.admin);
    assert!(data.initialized);
    assert_eq!(w.escrow.last_order_id(), 0);
    let events = w.escrow.take_events();
    assert_eq!(
        events,
        vec![EscrowEvent::Initialized(ContractInitialized {
            timestamp: 1234,
            admin: w.admin.clone()
        })]
    );
    assert!(w.escrow.take_events().is_empty());
}

#[test]
fn second_initialization_changes_nothing() {
    let mut w = setup();
    w.escrow.initialize(&w.env, w.admin.clone()).unwrap();
    order(&mut w, 10, "one").unwrap();
    w.escrow.take_events();
    let other = Address::generate(&w.env);
    assert_eq!(
        w.escrow.initialize(&w.env, other),
        Err(CyloEscrowErrors::AlreadyInitialized)
    );
    assert_eq!(w.escrow.admin().unwrap().admin, w.admin);
    assert_eq!(w.escrow.last_order_id(), 1);
    assert!(w.escrow.take_events().is_empty());
}

#[test]
fn initialization_restarts_the_counter() {
    let mut w = setup();
    assert_eq!(order(&mut w, 10, "before"), Ok(1));
    assert_eq!(order(&mut w, 10, "before"), Ok(2));
    w.escrow.initialize(&w.env, w.admin.clone()).unwrap();
    assert_eq!(w.escrow.last_order_id(), 0);
    assert_eq!(order(&mut w, 30, "after"), Ok(1));
    assert_eq!(w.escrow.get_order_details(1).unwrap().amount, 30);
}

#[test]
fn creation_pulls_funds_and_records_the_order() {
    let mut w = setup();
    w.env.ledger().set_timestamp(5000);
    let id = order(&mut w, 700, "wheat").unwrap();
    assert_eq!(id, 1);
    assert_eq!(balance(&w, &w.buyer), 1_000_000 - 700);
    assert_eq!(balance(&w, &w.custodian), 700);
    assert_eq!(balance(&w, &w.farmer), 0);

    let order = w.escrow.get_order_details(id).unwrap();
    assert_eq!(order.id, 1);
    assert_eq!(order.buyer, w.buyer);
    assert_eq!(order.farmer, w.farmer);
    assert_eq!(order.token, w.token);
    assert_eq!(order.amount, 700);
    assert_eq!(order.timestamp, 5000);
    assert!(!order.confirmed);
    assert!(!order.refunded);
    assert_eq!(order.metadata, String::from_str(&w.env, "wheat"));
    assert_eq!(w.escrow.last_order_id(), 1);

    let events = w.escrow.take_events();
    assert_eq!(
        events,
        vec![EscrowEvent::Created(OrderCreated {
            id: 1,
            buyer: w.buyer.clone(),
            farmer: w.farmer.clone(),
            token: w.token.clone(),
            amount: 700,
        })]
    );
}

#[test]
fn refused_creation_leaves_no_trace() {
    let mut w = setup();
    order(&mut w, 100, "kept").unwrap();
    w.escrow.take_events();

    assert_eq!(order(&mut w, 0, "zero"), Err(CyloEscrowErrors::InvalidInput));
    assert_eq!(order(&mut w, -5, "negative"), Err(CyloEscrowErrors::InvalidInput));
    assert_eq!(order(&mut w, i128::MIN, "least"), Err(CyloEscrowErrors::InvalidInput));
    let metadata = String::from_str(&w.env, "self");
    assert_eq!(
        w.escrow.create_order(
            &w.env,
            w.farmer.clone(),
            w.farmer.clone(),
            w.token.clone(),
            10,
            metadata
        ),
        Err(CyloEscrowErrors::InvalidInput)
    );

    assert_eq!(w.escrow.last_order_id(), 1);
    assert_eq!(
        w.escrow.get_order_details(2).unwrap_err(),
        CyloEscrowErrors::InvalidOrderId
    );
    assert_eq!(w.escrow.get_orders_by_buyer(&w.env, w.buyer.clone()).len(), 1);
    assert_eq!(w.escrow.get_orders_by_farmer(&w.env, w.farmer.clone()).len(), 1);
    assert_eq!(w.escrow.get_orders_by_buyer(&w.env, w.farmer.clone()).len(), 0);
    assert!(w.escrow.take_events().is_empty());
    assert_eq!(balance(&w, &w.buyer), 1_000_000 - 100);
}

#[test]
fn creation_fails_when_funds_do_not_arrive() {
    let mut w = setup();
    assert_eq!(
        order(&mut w, 1_000_001, "too much"),
        Err(CyloEscrowErrors::TransferFailed)
    );
    assert_eq!(w.escrow.last_order_id(), 0);
    assert!(w.escrow.get_order_details(1).is_err());
    assert_eq!(w.escrow.get_orders_by_buyer(&w.env, w.buyer.clone()).len(), 0);
    assert!(w.escrow.take_events().is_empty());
    assert_eq!(balance(&w, &w.buyer), 1_000_000);
    assert_eq!(order(&mut w, 1_000_000, "all of it"), Ok(1));
}

#[test]
fn ids_are_dense_across_failed_creations() {
    let mut w = setup();
    assert_eq!(order(&mut w, 10, "a"), Ok(1));
    assert_eq!(order(&mut w, 0, "bad"), Err(CyloEscrowErrors::InvalidInput));
    assert_eq!(order(&mut w, 10, "b"), Ok(2));
    assert_eq!(
        order(&mut w, 5_000_000, "poor"),
        Err(CyloEscrowErrors::TransferFailed)
    );
    w.escrow.confirm_receipt(&w.env, w.buyer.clone(), 1).unwrap();
    assert_eq!(order(&mut w, 10, "c"), Ok(3));
    assert_eq!(order(&mut w, 10, "d"), Ok(4));
    assert_eq!(w.escrow.last_order_id(), 4);
}

#[test]
fn confirmation_releases_funds_to_the_farmer() {
    let mut w = setup();
    let id = order(&mut w, 250, "milk").unwrap();
    w.escrow.take_events();
    assert_eq!(w.escrow.confirm_receipt(&w.env, w.buyer.clone(), id), Ok(()));
    assert_eq!(balance(&w, &w.farmer), 250);
    assert_eq!(balance(&w, &w.custodian), 0);
    let order = w.escrow.get_order_details(id).unwrap();
    assert!(order.confirmed);
    assert!(!order.refunded);
    assert_eq!(
        w.escrow.take_events(),
        vec![EscrowEvent::Confirmed(OrderConfirmed { id })]
    );
}

#[test]
fn confirmation_refusals() {
    let mut w = setup();
    let id = order(&mut w, 250, "milk").unwrap();
    let stranger = Address::generate(&w.env);

    assert_eq!(
        w.escrow.confirm_receipt(&w.env, w.buyer.clone(), 9),
        Err(CyloEscrowErrors::InvalidOrderId)
    );
    assert_eq!(
        w.escrow.confirm_receipt(&w.env, w.buyer.clone(), 0),
        Err(CyloEscrowErrors::InvalidOrderId)
    );
    assert_eq!(
        w.escrow.confirm_receipt(&w.env, stranger.clone(), id),
        Err(CyloEscrowErrors::Unauthorized)
    );
    assert_eq!(
        w.escrow.confirm_receipt(&w.env, w.farmer.clone(), id),
        Err(CyloEscrowErrors::Unauthorized)
    );
    let untouched = w.escrow.get_order_details(id).unwrap();
    assert!(!untouched.confirmed && !untouched.refunded);
    assert_eq!(balance(&w, &w.custodian), 250);

    // settled by refund: refused for the owner and for a stranger alike
    advance_time(&w.env, EXPIRATION_PERIOD);
    w.escrow.refund_order(&w.env, id).unwrap();
    assert_eq!(
        w.escrow.confirm_receipt(&w.env, w.buyer.clone(), id),
        Err(CyloEscrowErrors::AlreadyProcessed)
    );
    assert_eq!(
        w.escrow.confirm_receipt(&w.env, stranger, id),
        Err(CyloEscrowErrors::AlreadyProcessed)
    );
    let order = w.escrow.get_order_details(id).unwrap();
    assert!(order.refunded && !order.confirmed);
}
