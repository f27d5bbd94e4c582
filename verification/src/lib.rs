//! Provenance tracking for manufactured goods.
//!
//! Goods are grouped into batches; each batch accumulates a chain of
//! lifecycle events.  A per-authority configuration record gates global
//! parameters, and a manufacturer registry gates who may create batches.
//! Batch and event records can be handed over to a faster secondary
//! execution venue (a rollup) for high-frequency updates and later
//! reconciled back to the durable store; see [`system`] and [`rollup`].

pub mod error;
pub mod events;
pub mod laws;
pub mod notify;
pub mod registry;
pub mod rollup;
pub mod state;
pub mod status;
pub mod system;
