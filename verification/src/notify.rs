//! Notification records: the append-only output stream for observers.
//!
//! The core offers no read path of its own; these records are the only
//! externally observable trace of what it did.

use vstd::prelude::*;

use crate::state::Pubkey;
use crate::status::{EventType, OrderStatus, ProductStatus, VerificationStatus};

verus! {

/// Emitted once for every event appended to a batch.
#[derive(Clone, Copy, Debug, PartialEq, Eq, Structural)]
pub struct EventCreated {
    pub event_id: Pubkey,
    pub batch_id: Pubkey,
    pub event_type: EventType,
    pub actor: Pubkey,
    pub timestamp: i64,
}

/// Emitted once for every update applied on the rollup venue.
#[derive(Clone, Copy, Debug, PartialEq, Eq, Structural)]
pub struct StateUpdated {
    pub batch_id: Pubkey,
    pub event_id: Pubkey,
    pub updated_by: Pubkey,
    pub batch_status: ProductStatus,
    pub order_status: OrderStatus,
    pub event_type: EventType,
    pub timestamp: i64,
}

/// Emitted when a delegated pair is finally committed and undelegated.
#[derive(Clone, Copy, Debug, PartialEq, Eq, Structural)]
pub struct SupplyChainCompleted {
    pub batch_id: Pubkey,
    pub event_id: Pubkey,
    pub final_status: ProductStatus,
    pub final_order_status: OrderStatus,
    pub verification_status: VerificationStatus,
    pub total_events: u32,
    pub completed_by: Pubkey,
    pub completion_timestamp: i64,
}

/// One entry of the append-only notification stream.
#[derive(Clone, Copy, Debug, PartialEq, Eq, Structural)]
pub enum Notification {
    EventCreated(EventCreated),
    StateUpdated(StateUpdated),
    SupplyChainCompleted(SupplyChainCompleted),
}

} // verus!
