//! The error taxonomy shared by every operation.

use vstd::prelude::*;

verus! {

/// Why an operation was rejected.
///
/// Every operation either succeeds atomically or returns one of these and
/// leaves the whole system unchanged.  The variants distinguish
/// authorization failures (never worth retrying) from validation failures
/// and timing failures (retrying may help).
#[derive(Clone, Copy, Debug, PartialEq, Eq, Structural)]
pub enum CassegrainError {
    Unauthorized,
    ProgramPaused,
    ProductNotFound,
    ManufacturerNotFound,
    InvalidProductCategory,
    InvalidProductStatus,
    InvalidBusinessType,
    InsufficientRegistrationFee,
    EventLimitExceeded,
    ProductAlreadyExists,
    ManufacturerProfileExists,
    InvalidShippingAddressFormat,
    InvalidLocationData,
    ManufacturerNotVerified,
    InvalidBatchSize,
    InvalidIPFSHash,
    BatchNotFound,
    EventTooFrequent,
    UnauthorizedQualityCheck,
    UnauthorizedCustomsEvent,
    EventAlreadyExists,
    InvalidBatchId,
    InvalidEventId,
    /// No configuration record exists for the named authority.
    ConfigNotFound,
    /// A configuration record already exists for the named authority.
    ConfigAlreadyExists,
    /// No event record exists under the given event id.
    EventNotFound,
    /// A length-bounded text field exceeds its bound.
    InvalidInput,
}

} // verus!
