//! The status taxonomies carried by batch and event records.

use vstd::prelude::*;

verus! {

/// Lifecycle status of a product batch.
#[derive(Clone, Copy, Debug, PartialEq, Eq, Structural)]
pub enum ProductStatus {
    Registered,
    Created,
    Manufactured,
    InTransit,
    InWarehouse,
    ForSale,
    Sold,
    Delivered,
    Recalled,
    Destroyed,
}

/// Broad category of the goods in a batch.
#[derive(Clone, Copy, Debug, PartialEq, Eq, Structural)]
pub enum ProductCategory {
    Electronics,
    Automotive,
    Pharmaceuticals,
    Food,
    Textiles,
    Luxury,
    Industrial,
    Other,
}

/// Kind of lifecycle action an event records.
#[derive(Clone, Copy, Debug, PartialEq, Eq, Structural)]
pub enum EventType {
    Manufactured,
    QualityCheck,
    Packaged,
    Shipped,
    InTransit,
    Delivered,
    Sold,
    Recalled,
    QualityFailed,
    OwnershipTransfer,
    LocationUpdate,
    CustomsCleared,
}

/// How far an event's authenticity review has progressed.
#[derive(Clone, Copy, Debug, PartialEq, Eq, Structural)]
pub enum VerificationStatus {
    Pending,
    Verified,
    Failed,
    Disputed,
}

/// Fulfilment state of the order an event belongs to.
#[derive(Clone, Copy, Debug, PartialEq, Eq, Structural)]
pub enum OrderStatus {
    Pending,
    Confirmed,
    Processing,
    Shipped,
    InTransit,
    Delivered,
    Completed,
    Cancelled,
    Disputed,
    Refunded,
}

/// Settlement state of a payment.
#[derive(Clone, Copy, Debug, PartialEq, Eq, Structural)]
pub enum PaymentStatus {
    Pending,
    Authorized,
    Captured,
    InEscrow,
    Released,
    Refunded,
    Failed,
}

/// Channel through which an item was verified.
#[derive(Clone, Copy, Debug, PartialEq, Eq, Structural)]
pub enum VerificationMethod {
    QRCode,
    NFCTag,
    Manual,
    API,
    Batch,
}

/// Tier of certification a manufacturer holds.
#[derive(Clone, Copy, Debug, PartialEq, Eq, Structural)]
pub enum CertificationLevel {
    Basic,
    Standard,
    Premium,
    Enterprise,
}

/// Role of a registered business.
#[derive(Clone, Copy, Debug, PartialEq, Eq, Structural)]
pub enum BusinessType {
    Manufacturer,
    Distributor,
    Retailer,
    LogisticsProvider,
    QualityInspector,
    Consumer,
}

} // verus!
