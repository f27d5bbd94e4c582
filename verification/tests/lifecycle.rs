//! Configuration, registry, batch registration and event creation.

use cassegrain::error::CassegrainError;
use cassegrain::notify::Notification;
use cassegrain::state::Pubkey;
use cassegrain::status::{
    BusinessType, EventType, OrderStatus, ProductCategory, ProductStatus, VerificationStatus,
};
use cassegrain::system::{Cassegrain, Residency};

fn key(n: u128) -> Pubkey {
    Pubkey { hi: 0, lo: n }
}

/// Authority `key(1)`, verified manufacturer `key(2)`.
fn setup(max_batch_size: u8, min_event_interval: i64) -> Cassegrain {
    let mut sys = Cassegrain::new();
    sys.initialize(key(1), 100, 1000, 50, min_event_interval, max_batch_size, 7)
        .unwrap();
    sys.register_manufacturer(
        key(1),
        key(2),
        "Acme Goods".to_string(),
        BusinessType::Manufacturer,
        "ISO9001".to_string(),
        3,
    )
    .unwrap();
    // Verification is an administrative action outside the core.
    sys.manufacturers[0].is_verified = true;
    sys
}

#[test]
fn initialize_creates_config() {
    let mut sys = Cassegrain::new();
    sys.initialize(key(1), 250, 64, 16, 30, 12, 9).unwrap();
    assert_eq!(sys.configs.len(), 1);
    let cfg = &sys.configs[0];
    assert_eq!(cfg.authority, key(1));
    assert!(!cfg.is_paused);
    assert_eq!(cfg.product_registration_fee, 250);
    assert_eq!(cfg.fee_treasury, key(1));
    assert_eq!(cfg.max_events_per_product, 64);
    assert_eq!(cfg.max_products_per_manufacturer, 16);
    assert_eq!(cfg.min_event_interval, 30);
    assert_eq!(cfg.max_batch_size, 12);
    assert_eq!(cfg.bump, 9);
}

#[test]
fn initialize_twice_fails() {
    let mut sys = Cassegrain::new();
    sys.initialize(key(1), 0, 0, 0, 0, 10, 0).unwrap();
    let r = sys.initialize(key(1), 1, 1, 1, 1, 5, 1);
    assert_eq!(r, Err(CassegrainError::ConfigAlreadyExists));
    assert_eq!(sys.configs.len(), 1);
    assert_eq!(sys.configs[0].max_batch_size, 10);
    // A second authority gets its own configuration.
    sys.initialize(key(9), 1, 1, 1, 1, 5, 1).unwrap();
    assert_eq!(sys.configs.len(), 2);
}

#[test]
fn register_manufacturer_profile() {
    let sys = setup(10, 0);
    assert_eq!(sys.manufacturers.len(), 1);
    let p = &sys.manufacturers[0];
    assert_eq!(p.company_name, "Acme Goods");
    assert_eq!(p.business_type, BusinessType::Manufacturer);
    assert_eq!(p.owner, key(2));
    assert_eq!(p.certifications, "ISO9001");
    assert_eq!(p.bump, 3);
}

#[test]
fn register_manufacturer_starts_unverified() {
    let mut sys = Cassegrain::new();
    sys.initialize(key(1), 0, 0, 0, 0, 10, 0).unwrap();
    sys.register_manufacturer(
        key(1),
        key(2),
        "Plain".to_string(),
        BusinessType::Retailer,
        "".to_string(),
        0,
    )
    .unwrap();
    assert!(!sys.manufacturers[0].is_verified);
}

#[test]
fn register_manufacturer_errors() {
    let mut sys = Cassegrain::new();
    let r = sys.register_manufacturer(
        key(1),
        key(2),
        "A".to_string(),
        BusinessType::Manufacturer,
        "".to_string(),
        0,
    );
    assert_eq!(r, Err(CassegrainError::ConfigNotFound));
    sys.initialize(key(1), 0, 0, 0, 0, 10, 0).unwrap();
    sys.configs[0].is_paused = true;
    let r = sys.register_manufacturer(
        key(1),
        key(2),
        "A".to_string(),
        BusinessType::Manufacturer,
        "".to_string(),
        0,
    );
    assert_eq!(r, Err(CassegrainError::ProgramPaused));
    sys.configs[0].is_paused = false;
    sys.register_manufacturer(
        key(1),
        key(2),
        "A".to_string(),
        BusinessType::Manufacturer,
        "".to_string(),
        0,
    )
    .unwrap();
    let r = sys.register_manufacturer(
        key(1),
        key(2),
        "B".to_string(),
        BusinessType::Distributor,
        "".to_string(),
        0,
    );
    assert_eq!(r, Err(CassegrainError::ManufacturerProfileExists));
    // 33 bytes of company name is one too many.
    let long = "x".repeat(33);
    let r = sys.register_manufacturer(
        key(1),
        key(3),
        long.clone(),
        BusinessType::Manufacturer,
        "".to_string(),
        0,
    );
    assert_eq!(r, Err(CassegrainError::InvalidInput));
    let r = sys.register_manufacturer(
        key(1),
        key(3),
        "ok".to_string(),
        BusinessType::Manufacturer,
        long,
        0,
    );
    assert_eq!(r, Err(CassegrainError::InvalidInput));
    assert_eq!(sys.manufacturers.len(), 1);
}

#[test]
fn register_batch_creates_record() {
    let mut sys = setup(10, 0);
    sys.register_product_batch(
        key(1),
        key(2),
        key(100),
        Some("QmBatchMeta".to_string()),
        ProductCategory::Electronics,
        5,
        1_000,
        4,
    )
    .unwrap();
    assert_eq!(sys.batches.len(), 1);
    let b = &sys.batches[0].batch;
    assert_eq!(b.batch_id, key(100));
    assert_eq!(b.manufacturer_name, "Acme Goods");
    assert_eq!(b.status, ProductStatus::Created);
    assert_eq!(b.created_at, 1_000);
    assert_eq!(b.last_updated, 1_000);
    assert_eq!(b.metadata_ipfs, Some("QmBatchMeta".to_string()));
    assert!(!b.authenticity_verified);
    assert_eq!(b.category, ProductCategory::Electronics);
    assert_eq!(b.manufacturer, key(2));
    assert_eq!(b.event_account, None);
    assert_eq!(b.total_events, 0);
    assert_eq!(b.batch_size, 5);
    assert_eq!(b.bump, 4);
    assert_eq!(sys.batches[0].residency, Residency::Resident);
}

#[test]
fn register_batch_is_idempotent() {
    let mut sys = setup(10, 0);
    sys.register_product_batch(
        key(1),
        key(2),
        key(100),
        Some("QmFirst".to_string()),
        ProductCategory::Food,
        5,
        1_000,
        0,
    )
    .unwrap();
    let before = sys.batches[0].batch.clone();
    // Retried submission with different arguments: silent no-op.
    sys.register_product_batch(
        key(1),
        key(2),
        key(100),
        Some("QmSecond".to_string()),
        ProductCategory::Luxury,
        9,
        2_000,
        1,
    )
    .unwrap();
    assert_eq!(sys.batches.len(), 1);
    assert_eq!(sys.batches[0].batch, before);
}

#[test]
fn register_batch_size_bounds() {
    let mut sys = setup(10, 0);
    let r = sys.register_product_batch(
        key(1),
        key(2),
        key(100),
        None,
        ProductCategory::Other,
        0,
        1_000,
        0,
    );
    assert_eq!(r, Err(CassegrainError::InvalidBatchSize));
    let r = sys.register_product_batch(
        key(1),
        key(2),
        key(100),
        None,
        ProductCategory::Other,
        11,
        1_000,
        0,
    );
    assert_eq!(r, Err(CassegrainError::InvalidBatchSize));
    // Both ends of [1, max_batch_size] are accepted.
    sys.register_product_batch(key(1), key(2), key(100), None, ProductCategory::Other, 1, 0, 0)
        .unwrap();
    sys.register_product_batch(key(1), key(2), key(101), None, ProductCategory::Other, 10, 0, 0)
        .unwrap();
    assert_eq!(sys.batches.len(), 2);
}

#[test]
fn register_batch_requires_verified_manufacturer() {
    let mut sys = setup(10, 0);
    sys.manufacturers[0].is_verified = false;
    let r = sys.register_product_batch(
        key(1),
        key(2),
        key(100),
        None,
        ProductCategory::Other,
        5,
        1_000,
        0,
    );
    assert_eq!(r, Err(CassegrainError::ManufacturerNotVerified));
    let r = sys.register_product_batch(
        key(1),
        key(5),
        key(100),
        None,
        ProductCategory::Other,
        5,
        1_000,
        0,
    );
    assert_eq!(r, Err(CassegrainError::ManufacturerNotFound));
    assert_eq!(sys.batches.len(), 0);
}

#[test]
fn register_batch_metadata_bound() {
    let mut sys = setup(10, 0);
    let long = "m".repeat(33);
    let r = sys.register_product_batch(
        key(1),
        key(2),
        key(100),
        Some(long),
        ProductCategory::Other,
        5,
        1_000,
        0,
    );
    assert_eq!(r, Err(CassegrainError::InvalidIPFSHash));
    // Exactly 32 bytes is fine.
    let edge = "m".repeat(32);
    sys.register_product_batch(
        key(1),
        key(2),
        key(100),
        Some(edge),
        ProductCategory::Other,
        5,
        1_000,
        0,
    )
    .unwrap();
}

#[test]
fn create_event_appends_and_counts() {
    let mut sys = setup(10, 0);
    sys.register_product_batch(key(1), key(2), key(100), None, ProductCategory::Food, 5, 1_000, 0)
        .unwrap();
    sys.create_event(
        key(1),
        key(2),
        key(100),
        key(200),
        EventType::Manufactured,
        Some("QmEvt".to_string()),
        OrderStatus::Pending,
        None,
        1_500,
        2,
    )
    .unwrap();
    assert_eq!(sys.events.len(), 1);
    let e = &sys.events[0].event;
    assert_eq!(e.event_id, key(200));
    assert_eq!(e.batch_id, key(100));
    assert_eq!(e.product_event_type, EventType::Manufactured);
    assert_eq!(e.actor, key(2));
    assert_eq!(e.timestamp, 1_500);
    assert_eq!(e.metadata_ipfs, Some("QmEvt".to_string()));
    assert_eq!(e.verification_status, VerificationStatus::Pending);
    assert_eq!(e.order_status, OrderStatus::Pending);
    assert_eq!(e.previous_event, None);
    assert_eq!(e.next_event, None);
    assert_eq!(e.bumps, 2);
    assert_eq!(sys.batches[0].batch.total_events, 1);
    assert_eq!(sys.batches[0].batch.last_updated, 1_500);
    // The chain link is caller-supplied on the next event.
    sys.create_event(
        key(1),
        key(2),
        key(100),
        key(201),
        EventType::QualityCheck,
        None,
        OrderStatus::Pending,
        Some(key(200)),
        1_600,
        0,
    )
    .unwrap();
    assert_eq!(sys.events[1].event.previous_event, Some(key(200)));
    assert_eq!(sys.batches[0].batch.total_events, 2);
    // One notification per event, in order.
    assert_eq!(sys.notifications.len(), 2);
    match &sys.notifications[0] {
        Notification::EventCreated(n) => {
            assert_eq!(n.event_id, key(200));
            assert_eq!(n.batch_id, key(100));
            assert_eq!(n.event_type, EventType::Manufactured);
            assert_eq!(n.actor, key(2));
            assert_eq!(n.timestamp, 1_500);
        }
        other => panic!("expected EventCreated, got {:?}", other),
    }
}

#[test]
fn create_event_rate_limit() {
    let mut sys = setup(10, 100);
    sys.register_product_batch(key(1), key(2), key(100), None, ProductCategory::Food, 5, 1_000, 0)
        .unwrap();
    // The first event on a fresh batch is never rate limited, however
    // soon it comes after registration.
    sys.create_event(
        key(1),
        key(2),
        key(100),
        key(200),
        EventType::Manufactured,
        None,
        OrderStatus::Pending,
        None,
        1_001,
        0,
    )
    .unwrap();
    // Once the batch has events, a call within the interval fails.
    let r = sys.create_event(
        key(1),
        key(2),
        key(100),
        key(201),
        EventType::Packaged,
        None,
        OrderStatus::Pending,
        None,
        1_050,
        0,
    );
    assert_eq!(r, Err(CassegrainError::EventTooFrequent));
    assert_eq!(sys.batches[0].batch.total_events, 1);
    assert_eq!(sys.events.len(), 1);
    // At the interval boundary it passes again.
    sys.create_event(
        key(1),
        key(2),
        key(100),
        key(201),
        EventType::Packaged,
        None,
        OrderStatus::Pending,
        None,
        1_101,
        0,
    )
    .unwrap();
    // And a third call inside the next window fails again.
    let r = sys.create_event(
        key(1),
        key(2),
        key(100),
        key(202),
        EventType::Shipped,
        None,
        OrderStatus::Pending,
        None,
        1_150,
        0,
    );
    assert_eq!(r, Err(CassegrainError::EventTooFrequent));
    assert_eq!(sys.batches[0].batch.total_events, 2);
}

#[test]
fn create_event_errors() {
    let mut sys = setup(10, 0);
    sys.register_product_batch(key(1), key(2), key(100), None, ProductCategory::Food, 5, 1_000, 0)
        .unwrap();
    let r = sys.create_event(
        key(1),
        key(2),
        key(999),
        key(200),
        EventType::Manufactured,
        None,
        OrderStatus::Pending,
        None,
        1_100,
        0,
    );
    assert_eq!(r, Err(CassegrainError::BatchNotFound));
    let r = sys.create_event(
        key(1),
        key(5),
        key(100),
        key(200),
        EventType::Manufactured,
        None,
        OrderStatus::Pending,
        None,
        1_100,
        0,
    );
    assert_eq!(r, Err(CassegrainError::Unauthorized));
    let long = "e".repeat(33);
    let r = sys.create_event(
        key(1),
        key(2),
        key(100),
        key(200),
        EventType::Manufactured,
        Some(long),
        OrderStatus::Pending,
        None,
        1_100,
        0,
    );
    assert_eq!(r, Err(CassegrainError::InvalidIPFSHash));
    sys.create_event(
        key(1),
        key(2),
        key(100),
        key(200),
        EventType::Manufactured,
        None,
        OrderStatus::Pending,
        None,
        1_100,
        0,
    )
    .unwrap();
    let r = sys.create_event(
        key(1),
        key(2),
        key(100),
        key(200),
        EventType::Packaged,
        None,
        OrderStatus::Pending,
        None,
        1_200,
        0,
    );
    assert_eq!(r, Err(CassegrainError::EventAlreadyExists));
    let r = sys.create_event(
        key(8),
        key(2),
        key(100),
        key(201),
        EventType::Packaged,
        None,
        OrderStatus::Pending,
        None,
        1_200,
        0,
    );
    assert_eq!(r, Err(CassegrainError::ConfigNotFound));
    sys.configs[0].is_paused = true;
    let r = sys.create_event(
        key(1),
        key(2),
        key(100),
        key(201),
        EventType::Packaged,
        None,
        OrderStatus::Pending,
        None,
        1_200,
        0,
    );
    assert_eq!(r, Err(CassegrainError::ProgramPaused));
    sys.configs[0].is_paused = false;
    // A batch whose recorded manufacturer has no profile: the profile
    // lookup itself fails.
    sys.batches[0].batch.manufacturer = key(42);
    let r = sys.create_event(
        key(1),
        key(42),
        key(100),
        key(201),
        EventType::Packaged,
        None,
        OrderStatus::Pending,
        None,
        1_200,
        0,
    );
    assert_eq!(r, Err(CassegrainError::ManufacturerNotFound));
    assert_eq!(sys.events.len(), 1);
}

#[test]
fn event_count_matches_successful_calls() {
    let mut sys = setup(10, 0);
    sys.register_product_batch(key(1), key(2), key(100), None, ProductCategory::Food, 8, 1_000, 0)
        .unwrap();
    let times = [1_100, 1_100, 1_250, 1_300];
    for (i, t) in times.iter().enumerate() {
        sys.create_event(
            key(1),
            key(2),
            key(100),
            key(300 + i as u128),
            EventType::LocationUpdate,
            None,
            OrderStatus::Processing,
            None,
            *t,
            0,
        )
        .unwrap();
    }
    assert_eq!(sys.batches[0].batch.total_events, 4);
    assert_eq!(sys.batches[0].batch.last_updated, 1_300);
    // One record per call, in call order, each with its call's clock:
    // the stored timestamps never decrease.
    assert_eq!(sys.events.len(), 4);
    for i in 1..sys.events.len() {
        assert!(sys.events[i - 1].event.timestamp <= sys.events[i].event.timestamp);
    }
}
