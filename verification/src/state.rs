//! The durable records: configuration, manufacturer profile, batch and event.

use vstd::prelude::*;
use vstd::string::StringSliceAdditionalSpecFns;

use crate::status::{
    BusinessType, EventType, OrderStatus, ProductCategory, ProductStatus, VerificationStatus,
};

verus! {

/// Every length-bounded text field holds at most this many bytes.
pub const MAX_TEXT_BYTES: usize = 32;

/// A 32-byte identity or record address, held as two 128-bit halves so
/// that equality in executable code coincides with equality in
/// specifications.
#[derive(Clone, Copy, Debug, PartialEq, Eq, Structural, Hash)]
pub struct Pubkey {
    pub hi: u128,
    pub lo: u128,
}

/// Length of a text value in bytes (UTF-8 encoding of its characters).
pub open spec fn byte_len(s: String) -> nat {
    vstd::utf8::encode_utf8(s@).len()
}

/// The text fits the global bound on stored text fields.
pub open spec fn text_ok(s: String) -> bool {
    byte_len(s) <= MAX_TEXT_BYTES as nat
}

/// An optional text field is either absent or within the bound.
pub open spec fn opt_text_ok(m: Option<String>) -> bool {
    m matches Some(s) ==> text_ok(s)
}

/// Byte length of a text value, tied to [`byte_len`].
pub fn text_len(s: &String) -> (n: usize)
    ensures
        n as nat == byte_len(*s),
{
    let t = s.as_str();
    let b = t.as_bytes();
    proof {
        assert(t.spec_bytes() == vstd::utf8::encode_utf8(s@));
    }
    b.len()
}

/// Copy of an optional text value.
pub fn duplicate_opt_text(m: &Option<String>) -> (r: Option<String>)
    ensures
        r == *m,
{
    match m {
        Option::None => Option::None,
        Option::Some(s) => Option::Some(s.clone()),
    }
}

/// One configuration record per issuing authority; gates global
/// parameters and the pause switch.  Created once and then only read.
#[derive(Debug, Clone, PartialEq, Eq)]
pub struct CassegrainConfig {
    pub authority: Pubkey,
    pub is_paused: bool,
    pub product_registration_fee: u64,
    pub fee_treasury: Pubkey,
    pub max_events_per_product: u32,
    pub max_products_per_manufacturer: u32,
    /// Minimum time between events on one batch (seconds).
    pub min_event_interval: i64,
    pub max_batch_size: u8,
    /// Salt used when the record's address was derived.
    pub bump: u8,
}

/// One profile per registrant identity.  `owner` is fixed at creation;
/// `is_verified` starts false and is flipped only by a verification
/// authority outside this core.
#[derive(Debug, Clone, PartialEq, Eq)]
pub struct ManufacturerProfile {
    pub company_name: String,
    pub business_type: BusinessType,
    pub owner: Pubkey,
    pub certifications: String,
    pub is_verified: bool,
    pub bump: u8,
}

impl ManufacturerProfile {
    /// Stored profiles keep their text fields within the global bound.
    pub open spec fn wf(self) -> bool {
        &&& text_ok(self.company_name)
        &&& text_ok(self.certifications)
    }
}

/// One ledger record per batch identifier, aggregating event counts and
/// lifecycle status.
#[derive(Debug, Clone, PartialEq, Eq)]
pub struct ProductBatch {
    pub batch_id: Pubkey,
    pub manufacturer_name: String,
    pub status: ProductStatus,
    pub created_at: i64,
    pub last_updated: i64,
    pub metadata_ipfs: Option<String>,
    pub authenticity_verified: bool,
    pub category: ProductCategory,
    pub manufacturer: Pubkey,
    pub event_account: Option<Pubkey>,
    pub total_events: u32,
    /// Fixed at creation and at least 1; a stored batch is never empty.
    pub batch_size: u8,
    pub bump: u8,
}

impl ProductBatch {
    /// Stored batches have a positive size, non-negative clock values
    /// and bounded text fields.
    pub open spec fn wf(self) -> bool {
        &&& 1 <= self.batch_size
        &&& 0 <= self.created_at
        &&& 0 <= self.last_updated
        &&& text_ok(self.manufacturer_name)
        &&& opt_text_ok(self.metadata_ipfs)
    }

    /// Field-for-field copy.
    pub fn duplicate(&self) -> (r: ProductBatch)
        ensures
            r == *self,
    {
        ProductBatch {
            batch_id: self.batch_id,
            manufacturer_name: self.manufacturer_name.clone(),
            status: self.status,
            created_at: self.created_at,
            last_updated: self.last_updated,
            metadata_ipfs: duplicate_opt_text(&self.metadata_ipfs),
            authenticity_verified: self.authenticity_verified,
            category: self.category,
            manufacturer: self.manufacturer,
            event_account: self.event_account,
            total_events: self.total_events,
            batch_size: self.batch_size,
            bump: self.bump,
        }
    }
}

/// One record per event identifier, tied to exactly one batch and
/// optionally chained to its predecessor and successor events.
#[derive(Debug, Clone, PartialEq, Eq)]
pub struct ProductEvent {
    pub event_id: Pubkey,
    pub batch_id: Pubkey,
    pub product_event_type: EventType,
    pub actor: Pubkey,
    pub timestamp: i64,
    pub metadata_ipfs: Option<String>,
    pub verification_status: VerificationStatus,
    pub order_status: OrderStatus,
    pub previous_event: Option<Pubkey>,
    pub next_event: Option<Pubkey>,
    pub bumps: u8,
}

impl ProductEvent {
    /// Stored events carry a non-negative clock value and bounded text.
    pub open spec fn wf(self) -> bool {
        &&& 0 <= self.timestamp
        &&& opt_text_ok(self.metadata_ipfs)
    }

    /// Field-for-field copy.
    pub fn duplicate(&self) -> (r: ProductEvent)
        ensures
            r == *self,
    {
        ProductEvent {
            event_id: self.event_id,
            batch_id: self.batch_id,
            product_event_type: self.product_event_type,
            actor: self.actor,
            timestamp: self.timestamp,
            metadata_ipfs: duplicate_opt_text(&self.metadata_ipfs),
            verification_status: self.verification_status,
            order_status: self.order_status,
            previous_event: self.previous_event,
            next_event: self.next_event,
            bumps: self.bumps,
        }
    }
}

/// A postal destination for a shipment.
#[derive(Debug, Clone, PartialEq, Eq)]
pub struct ShippingAddress {
    pub recipient_name: String,
    pub street_address: String,
    pub city: String,
    pub state: String,
    pub postal_code: Option<String>,
    pub country: String,
}

} // verus!
