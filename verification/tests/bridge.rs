//! The rollup bridge: delegate, update on the rollup, commit and
//! undelegate.

use cassegrain::error::CassegrainError;
use cassegrain::notify::Notification;
use cassegrain::state::Pubkey;
use cassegrain::status::{
    BusinessType, EventType, OrderStatus, ProductCategory, ProductStatus, VerificationStatus,
};
use cassegrain::system::{Cassegrain, Residency};

fn key(n: u128) -> Pubkey {
    Pubkey { hi: 0, lo: n }
}

/// Authority `key(1)`, verified manufacturer `key(2)`, batch `key(100)`
/// with one event `key(200)` created at t=1500.
fn setup_pair() -> Cassegrain {
    let mut sys = Cassegrain::new();
    sys.initialize(key(1), 100, 1000, 50, 0, 10, 0).unwrap();
    sys.register_manufacturer(
        key(1),
        key(2),
        "Acme Goods".to_string(),
        BusinessType::Manufacturer,
        "ISO9001".to_string(),
        0,
    )
    .unwrap();
    sys.manufacturers[0].is_verified = true;
    sys.register_product_batch(
        key(1),
        key(2),
        key(100),
        Some("QmBatch".to_string()),
        ProductCategory::Electronics,
        5,
        1_000,
        0,
    )
    .unwrap();
    sys.create_event(
        key(1),
        key(2),
        key(100),
        key(200),
        EventType::Manufactured,
        Some("QmEvt".to_string()),
        OrderStatus::Pending,
        None,
        1_500,
        0,
    )
    .unwrap();
    sys
}

#[test]
fn delegate_hands_over_the_pair() {
    let mut sys = setup_pair();
    sys.delegate_product(key(2), key(100), key(200)).unwrap();
    assert_eq!(sys.batches[0].residency, Residency::Delegated);
    assert_eq!(sys.events[0].residency, Residency::Delegated);
    assert_eq!(sys.rollup.len(), 1);
    // The rollup venue holds a copy-on-delegate snapshot.
    assert_eq!(sys.rollup[0].batch, sys.batches[0].batch);
    assert_eq!(sys.rollup[0].event, sys.events[0].event);
    // No notification is emitted for the hand-over itself.
    assert_eq!(sys.notifications.len(), 1);
}

#[test]
fn delegate_errors() {
    let mut sys = setup_pair();
    let r = sys.delegate_product(key(2), key(999), key(200));
    assert_eq!(r, Err(CassegrainError::BatchNotFound));
    let r = sys.delegate_product(key(2), key(100), key(999));
    assert_eq!(r, Err(CassegrainError::EventNotFound));
    // Authorization: only the batch's recorded manufacturer may
    // delegate, and a failed attempt changes nothing.
    let r = sys.delegate_product(key(5), key(100), key(200));
    assert_eq!(r, Err(CassegrainError::Unauthorized));
    assert_eq!(sys.batches[0].residency, Residency::Resident);
    assert_eq!(sys.rollup.len(), 0);
    sys.delegate_product(key(2), key(100), key(200)).unwrap();
    // A delegated pair cannot be delegated again.
    let r = sys.delegate_product(key(2), key(100), key(200));
    assert_eq!(r, Err(CassegrainError::Unauthorized));
    assert_eq!(sys.rollup.len(), 1);
}

#[test]
fn delegated_batch_is_write_locked_durably() {
    let mut sys = setup_pair();
    sys.delegate_product(key(2), key(100), key(200)).unwrap();
    let r = sys.create_event(
        key(1),
        key(2),
        key(100),
        key(201),
        EventType::Packaged,
        None,
        OrderStatus::Pending,
        None,
        2_000,
        0,
    );
    assert_eq!(r, Err(CassegrainError::Unauthorized));
    assert_eq!(sys.batches[0].batch.total_events, 1);
}

#[test]
fn event_log_sparse_patch_order_status_only() {
    let mut sys = setup_pair();
    sys.delegate_product(key(2), key(100), key(200)).unwrap();
    let before_batch = sys.rollup[0].batch.clone();
    let before_event = sys.rollup[0].event.clone();
    sys.event_log(
        key(2),
        key(100),
        key(200),
        None,
        Some(OrderStatus::Confirmed),
        None,
        None,
        None,
        None,
        2_000,
    )
    .unwrap();
    let b = &sys.rollup[0].batch;
    let e = &sys.rollup[0].event;
    // Order status changed; the count still rose; clocks moved.
    assert_eq!(e.order_status, OrderStatus::Confirmed);
    assert_eq!(b.total_events, before_batch.total_events + 1);
    assert_eq!(b.last_updated, 2_000);
    assert_eq!(e.timestamp, 2_000);
    // Everything not supplied is untouched.
    assert_eq!(b.status, before_batch.status);
    assert_eq!(e.product_event_type, before_event.product_event_type);
    assert_eq!(e.previous_event, before_event.previous_event);
    assert_eq!(e.next_event, before_event.next_event);
    assert_eq!(e.metadata_ipfs, before_event.metadata_ipfs);
    // The patched values were committed to durable storage, still
    // delegated.
    assert_eq!(sys.batches[0].batch, sys.rollup[0].batch);
    assert_eq!(sys.events[0].event, sys.rollup[0].event);
    assert_eq!(sys.batches[0].residency, Residency::Delegated);
    // A StateUpdated notification carries the resulting values.
    assert_eq!(sys.notifications.len(), 2);
    match &sys.notifications[1] {
        Notification::StateUpdated(n) => {
            assert_eq!(n.batch_id, key(100));
            assert_eq!(n.event_id, key(200));
            assert_eq!(n.updated_by, key(2));
            assert_eq!(n.batch_status, before_batch.status);
            assert_eq!(n.order_status, OrderStatus::Confirmed);
            assert_eq!(n.event_type, before_event.product_event_type);
            assert_eq!(n.timestamp, 2_000);
        }
        other => panic!("expected StateUpdated, got {:?}", other),
    }
}

#[test]
fn event_log_full_patch() {
    let mut sys = setup_pair();
    sys.delegate_product(key(2), key(100), key(200)).unwrap();
    sys.event_log(
        key(2),
        key(100),
        key(200),
        Some(ProductStatus::InTransit),
        Some(OrderStatus::Shipped),
        Some(EventType::Shipped),
        Some(key(777)),
        Some(key(778)),
        Some("QmNew".to_string()),
        2_500,
    )
    .unwrap();
    let b = &sys.rollup[0].batch;
    let e = &sys.rollup[0].event;
    assert_eq!(b.status, ProductStatus::InTransit);
    assert_eq!(e.order_status, OrderStatus::Shipped);
    assert_eq!(e.product_event_type, EventType::Shipped);
    assert_eq!(e.previous_event, Some(key(777)));
    assert_eq!(e.next_event, Some(key(778)));
    assert_eq!(e.metadata_ipfs, Some("QmNew".to_string()));
    assert_eq!(b.total_events, 2);
}

#[test]
fn event_log_errors() {
    let mut sys = setup_pair();
    let r = sys.event_log(
        key(2),
        key(100),
        key(200),
        None,
        None,
        None,
        None,
        None,
        None,
        2_000,
    );
    assert_eq!(r, Err(CassegrainError::BatchNotFound));
    sys.delegate_product(key(2), key(100), key(200)).unwrap();
    let long = "p".repeat(33);
    let r = sys.event_log(
        key(2),
        key(100),
        key(200),
        None,
        None,
        None,
        None,
        None,
        Some(long),
        2_000,
    );
    assert_eq!(r, Err(CassegrainError::InvalidIPFSHash));
    assert_eq!(sys.rollup[0].batch.total_events, 1);
}

#[test]
fn commit_pushes_rollup_state_durably() {
    let mut sys = setup_pair();
    sys.delegate_product(key(2), key(100), key(200)).unwrap();
    // The rollup venue mutates its local copy; durable storage still
    // holds the snapshot until a commit.
    sys.rollup[0].batch.status = ProductStatus::InWarehouse;
    assert_eq!(sys.batches[0].batch.status, ProductStatus::Created);
    sys.commit(key(100), key(200)).unwrap();
    assert_eq!(sys.batches[0].batch.status, ProductStatus::InWarehouse);
    // Delegation is retained: the entry is still there.
    assert_eq!(sys.rollup.len(), 1);
    assert_eq!(sys.batches[0].residency, Residency::Delegated);
    let r = sys.commit(key(100), key(999));
    assert_eq!(r, Err(CassegrainError::BatchNotFound));
}

#[test]
fn round_trip_preserves_fields_but_clocks() {
    let mut sys = setup_pair();
    let batch_before = sys.batches[0].batch.clone();
    let event_before = sys.events[0].event.clone();
    sys.delegate_product(key(2), key(100), key(200)).unwrap();
    sys.undelegate_product(key(2), key(100), key(200), 3_000).unwrap();
    let b = &sys.batches[0].batch;
    let e = &sys.events[0].event;
    assert_eq!(b.last_updated, 3_000);
    assert_eq!(e.timestamp, 3_000);
    let mut expected_batch = batch_before.clone();
    expected_batch.last_updated = 3_000;
    let mut expected_event = event_before.clone();
    expected_event.timestamp = 3_000;
    assert_eq!(*b, expected_batch);
    assert_eq!(*e, expected_event);
    assert_eq!(sys.batches[0].residency, Residency::Resident);
    assert_eq!(sys.events[0].residency, Residency::Resident);
    assert_eq!(sys.rollup.len(), 0);
    // Mutation through the durable path works again.
    sys.create_event(
        key(1),
        key(2),
        key(100),
        key(201),
        EventType::Packaged,
        None,
        OrderStatus::Pending,
        None,
        3_100,
        0,
    )
    .unwrap();
    assert_eq!(sys.batches[0].batch.total_events, 2);
}

#[test]
fn undelegate_emits_completion() {
    let mut sys = setup_pair();
    sys.delegate_product(key(2), key(100), key(200)).unwrap();
    sys.event_log(
        key(2),
        key(100),
        key(200),
        Some(ProductStatus::Delivered),
        Some(OrderStatus::Delivered),
        None,
        None,
        None,
        None,
        2_000,
    )
    .unwrap();
    sys.undelegate_product(key(2), key(100), key(200), 3_000).unwrap();
    assert_eq!(sys.notifications.len(), 3);
    match &sys.notifications[2] {
        Notification::SupplyChainCompleted(n) => {
            assert_eq!(n.batch_id, key(100));
            assert_eq!(n.event_id, key(200));
            assert_eq!(n.final_status, ProductStatus::Delivered);
            assert_eq!(n.final_order_status, OrderStatus::Delivered);
            assert_eq!(n.verification_status, VerificationStatus::Pending);
            assert_eq!(n.total_events, 2);
            assert_eq!(n.completed_by, key(2));
            assert_eq!(n.completion_timestamp, 3_000);
        }
        other => panic!("expected SupplyChainCompleted, got {:?}", other),
    }
}

#[test]
fn undelegate_errors() {
    let mut sys = setup_pair();
    let r = sys.undelegate_product(key(2), key(100), key(200), 3_000);
    assert_eq!(r, Err(CassegrainError::BatchNotFound));
    sys.delegate_product(key(2), key(100), key(200)).unwrap();
    // Authorization: only the recorded manufacturer may undelegate,
    // and a failed attempt changes nothing.
    let r = sys.undelegate_product(key(5), key(100), key(200), 3_000);
    assert_eq!(r, Err(CassegrainError::Unauthorized));
    assert_eq!(sys.rollup.len(), 1);
    assert_eq!(sys.batches[0].residency, Residency::Delegated);
    assert_eq!(sys.notifications.len(), 1);
}

#[test]
fn undelegate_checks_pair_linkage() {
    let mut sys = setup_pair();
    // A second batch, delegated together with the first batch's event:
    // the event does not belong to it.
    sys.register_product_batch(
        key(1),
        key(2),
        key(101),
        None,
        ProductCategory::Other,
        5,
        1_000,
        0,
    )
    .unwrap();
    sys.delegate_product(key(2), key(101), key(200)).unwrap();
    let r = sys.undelegate_product(key(2), key(101), key(200), 3_000);
    assert_eq!(r, Err(CassegrainError::InvalidBatchId));
    assert_eq!(sys.rollup.len(), 1);
}

#[test]
fn full_supply_chain_scenario() {
    // An authority configures the system; a verified manufacturer
    // registers a batch, records an event, hands the pair to the
    // rollup, ships it there, and reconciles.
    let mut sys = Cassegrain::new();
    sys.initialize(key(1), 100, 1000, 50, 0, 10, 0).unwrap();
    sys.register_manufacturer(
        key(1),
        key(2),
        "Acme Goods".to_string(),
        BusinessType::Manufacturer,
        "ISO9001".to_string(),
        0,
    )
    .unwrap();
    sys.manufacturers[0].is_verified = true;
    sys.register_product_batch(
        key(1),
        key(2),
        key(100),
        None,
        ProductCategory::Electronics,
        5,
        1_000,
        0,
    )
    .unwrap();
    assert_eq!(sys.batches[0].batch.status, ProductStatus::Created);
    assert_eq!(sys.batches[0].batch.total_events, 0);
    sys.create_event(
        key(1),
        key(2),
        key(100),
        key(200),
        EventType::Manufactured,
        None,
        OrderStatus::Pending,
        None,
        1_500,
        0,
    )
    .unwrap();
    assert_eq!(sys.batches[0].batch.total_events, 1);
    sys.delegate_product(key(2), key(100), key(200)).unwrap();
    sys.event_log(
        key(2),
        key(100),
        key(200),
        Some(ProductStatus::InTransit),
        None,
        None,
        None,
        None,
        None,
        2_000,
    )
    .unwrap();
    sys.undelegate_product(key(2), key(100), key(200), 3_000).unwrap();
    assert_eq!(sys.batches[0].batch.status, ProductStatus::InTransit);
    assert_eq!(sys.batches[0].batch.total_events, 2);
    assert_eq!(sys.batches[0].residency, Residency::Resident);
    match &sys.notifications[2] {
        Notification::SupplyChainCompleted(n) => {
            assert_eq!(n.final_status, ProductStatus::InTransit);
            assert_eq!(n.total_events, 2);
        }
        other => panic!("expected SupplyChainCompleted, got {:?}", other),
    }
}
