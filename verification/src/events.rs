//! Appending lifecycle events to a batch.

use vstd::prelude::*;

use crate::error::CassegrainError;
use crate::notify::{EventCreated, Notification};
use crate::state::{
    opt_text_ok, text_len, ProductBatch, ProductEvent, Pubkey, MAX_TEXT_BYTES,
};
use crate::status::{EventType, OrderStatus, VerificationStatus};
use crate::system::{
    batch_at, batch_idx, config_at, delegated_batch, delegated_event, has_batch, has_config,
    has_event, has_manufacturer, lemma_batch_idx, lemma_config_idx, lemma_event_idx,
    lemma_wf_unique, rollup_has_batch, rollup_has_event, unique_batches, unique_events, BatchSlot,
    Cassegrain, EventSlot, Residency,
};

verus! {

/// Error returned by [`Cassegrain::create_event`], or `None` when it
/// must succeed, checked in this order: the event id must be fresh, the
/// batch must exist, be resident (a delegated record is write-locked on
/// the durable venue) and be owned by the signer, the configuration
/// must exist and not be paused, the signer must have a profile, the
/// metadata must fit the bound, and — only once the batch already has
/// events — at least `min_event_interval` seconds must have passed
/// since the batch was last updated.
pub open spec fn create_event_outcome(
    pre: Cassegrain,
    authority: Pubkey,
    signer: Pubkey,
    batch_id: Pubkey,
    event_id: Pubkey,
    metadata_ipfs: Option<String>,
    now: i64,
) -> Option<CassegrainError> {
    if has_event(pre.events@, event_id) {
        Some(CassegrainError::EventAlreadyExists)
    } else if !has_batch(pre.batches@, batch_id) {
        Some(CassegrainError::BatchNotFound)
    } else if batch_at(pre.batches@, batch_id).residency is Delegated {
        Some(CassegrainError::Unauthorized)
    } else if batch_at(pre.batches@, batch_id).batch.manufacturer != signer {
        Some(CassegrainError::Unauthorized)
    } else if !has_config(pre.configs@, authority) {
        Some(CassegrainError::ConfigNotFound)
    } else if config_at(pre.configs@, authority).is_paused {
        Some(CassegrainError::ProgramPaused)
    } else if !has_manufacturer(pre.manufacturers@, signer) {
        Some(CassegrainError::ManufacturerNotFound)
    } else if !opt_text_ok(metadata_ipfs) {
        Some(CassegrainError::InvalidIPFSHash)
    } else if batch_at(pre.batches@, batch_id).batch.total_events > 0 && now - batch_at(
        pre.batches@,
        batch_id,
    ).batch.last_updated < config_at(pre.configs@, authority).min_event_interval {
        Some(CassegrainError::EventTooFrequent)
    } else {
        None
    }
}

/// The event record a successful call stores: verification starts
/// `Pending`, the successor link starts empty, and the predecessor link
/// is whatever the caller supplied (the chain is not independently
/// checked).
pub open spec fn created_event(
    signer: Pubkey,
    batch_id: Pubkey,
    event_id: Pubkey,
    event_type: EventType,
    metadata_ipfs: Option<String>,
    order_status: OrderStatus,
    previous_event: Option<Pubkey>,
    now: i64,
    bump: u8,
) -> ProductEvent {
    ProductEvent {
        event_id,
        batch_id,
        product_event_type: event_type,
        actor: signer,
        timestamp: now,
        metadata_ipfs,
        verification_status: VerificationStatus::Pending,
        order_status,
        previous_event,
        next_event: None,
        bumps: bump,
    }
}

/// Effect of a successful [`Cassegrain::create_event`]: the new event
/// record appears resident, the batch's event count rises by one and
/// its `last_updated` moves to `now`, and an `EventCreated`
/// notification is appended.  Nothing else moves.
pub open spec fn create_event_ok(
    pre: Cassegrain,
    post: Cassegrain,
    signer: Pubkey,
    batch_id: Pubkey,
    event_id: Pubkey,
    event_type: EventType,
    metadata_ipfs: Option<String>,
    order_status: OrderStatus,
    previous_event: Option<Pubkey>,
    now: i64,
    bump: u8,
) -> bool {
    let j = batch_idx(pre.batches@, batch_id);
    let old_slot = pre.batches@[j];
    let nb = ProductBatch {
        total_events: (old_slot.batch.total_events + 1) as u32,
        last_updated: now,
        ..old_slot.batch
    };
    &&& post.batches@ == pre.batches@.update(
        j,
        BatchSlot { batch: nb, residency: old_slot.residency },
    )
    &&& post.events@ == pre.events@.push(
        EventSlot {
            event: created_event(
                signer,
                batch_id,
                event_id,
                event_type,
                metadata_ipfs,
                order_status,
                previous_event,
                now,
                bump,
            ),
            residency: Residency::Resident,
        },
    )
    &&& post.notifications@ == pre.notifications@.push(
        Notification::EventCreated(
            EventCreated { event_id, batch_id, event_type, actor: signer, timestamp: now },
        ),
    )
    &&& post.configs@ == pre.configs@
    &&& post.manufacturers@ == pre.manufacturers@
    &&& post.rollup@ == pre.rollup@
}

/// Rewriting one batch slot in place (same id, same residency) while
/// appending a well-formed resident event under a fresh id keeps the
/// system well-formed.
proof fn lemma_update_batch_push_event(
    pre: Cassegrain,
    post: Cassegrain,
    j: int,
    bslot: BatchSlot,
    eslot: EventSlot,
)
    requires
        pre.wf(),
        0 <= j < pre.batches@.len(),
        bslot.batch.batch_id == pre.batches@[j].batch.batch_id,
        bslot.residency == pre.batches@[j].residency,
        bslot.batch.wf(),
        !has_event(pre.events@, eslot.event.event_id),
        eslot.event.wf(),
        eslot.residency is Resident,
        post.batches@ == pre.batches@.update(j, bslot),
        post.events@ == pre.events@.push(eslot),
        post.configs@ == pre.configs@,
        post.manufacturers@ == pre.manufacturers@,
        post.rollup@ == pre.rollup@,
    ensures
        post.wf(),
{
    reveal(Cassegrain::wf);
    let old_b = pre.batches@;
    let new_b = post.batches@;
    let old_e = pre.events@;
    let new_e = post.events@;
    let ne = old_e.len() as int;
    assert forall|i: int| 0 <= i < new_b.len() implies (#[trigger] new_b[i]).batch.batch_id
        == old_b[i].batch.batch_id && new_b[i].residency == old_b[i].residency by {}
    assert(unique_batches(new_b));
    assert forall|i: int| 0 <= i < ne implies (#[trigger] old_e[i]).event.event_id
        != eslot.event.event_id by {
        if old_e[i].event.event_id == eslot.event.event_id {
            assert(has_event(old_e, eslot.event.event_id));
        }
    }
    assert(unique_events(new_e));
    assert forall|k: int| 0 <= k < post.rollup@.len() implies delegated_batch(
        new_b,
        (#[trigger] post.rollup@[k]).batch.batch_id,
    ) && delegated_event(new_e, post.rollup@[k].event.event_id) by {
        let en = post.rollup@[k];
        let i = choose|i: int|
            0 <= i < old_b.len() && (#[trigger] old_b[i]).batch.batch_id == en.batch.batch_id
                && old_b[i].residency is Delegated;
        assert(new_b[i].batch.batch_id == en.batch.batch_id && new_b[i].residency
            is Delegated);
        let i2 = choose|i2: int|
            0 <= i2 < old_e.len() && (#[trigger] old_e[i2]).event.event_id == en.event.event_id
                && old_e[i2].residency is Delegated;
        assert(new_e[i2] == old_e[i2]);
    }
    assert forall|i: int|
        0 <= i < new_b.len() && (#[trigger] new_b[i]).residency is Delegated implies
        rollup_has_batch(post.rollup@, new_b[i].batch.batch_id) by {
        assert(old_b[i].residency is Delegated);
    }
    assert forall|i: int|
        0 <= i < new_e.len() && (#[trigger] new_e[i]).residency is Delegated implies
        rollup_has_event(post.rollup@, new_e[i].event.event_id) by {
        assert(new_e[i] == if i < ne {
            old_e[i]
        } else {
            eslot
        });
    }
}

impl Cassegrain {
    /// Appends one event to a batch the signer owns and bumps the
    /// batch's counters.  The first event on a batch is never rate
    /// limited; once `total_events > 0`, a call earlier than
    /// `min_event_interval` seconds after the batch's `last_updated` is
    /// rejected as too frequent.
    ///
    /// The count requirement reflects the machine bound on the event
    /// counter, which rises by one here.
    pub fn create_event(
        &mut self,
        authority: Pubkey,
        signer: Pubkey,
        batch_id: Pubkey,
        event_id: Pubkey,
        event_type: EventType,
        metadata_ipfs: Option<String>,
        order_status: OrderStatus,
        previous_event: Option<Pubkey>,
        now: i64,
        bump: u8,
    ) -> (r: Result<(), CassegrainError>)
        requires
            old(self).wf(),
            0 <= now,
            has_batch(old(self).batches@, batch_id) ==> batch_at(
                old(self).batches@,
                batch_id,
            ).batch.total_events < u32::MAX,
        ensures
            final(self).wf(),
            match create_event_outcome(
                *old(self),
                authority,
                signer,
                batch_id,
                event_id,
                metadata_ipfs,
                now,
            ) {
                Some(e) => r == Err::<(), CassegrainError>(e) && *final(self) == *old(self),
                None => r is Ok && create_event_ok(
                    *old(self),
                    *final(self),
                    signer,
                    batch_id,
                    event_id,
                    event_type,
                    metadata_ipfs,
                    order_status,
                    previous_event,
                    now,
                    bump,
                ),
            },
    {
        proof {
            lemma_wf_unique(*self);
        }
        match self.find_event(event_id) {
            Some(i) => {
                proof {
                    lemma_event_idx(self.events@, event_id, i as int);
                }
                return Err(CassegrainError::EventAlreadyExists);
            },
            None => {},
        }
        let bj = match self.find_batch(batch_id) {
            Some(i) => i,
            None => {
                return Err(CassegrainError::BatchNotFound);
            },
        };
        proof {
            lemma_batch_idx(self.batches@, batch_id, bj as int);
        }
        if self.batches[bj].residency == Residency::Delegated {
            return Err(CassegrainError::Unauthorized);
        }
        if self.batches[bj].batch.manufacturer != signer {
            return Err(CassegrainError::Unauthorized);
        }
        let cfg_i = match self.find_config(authority) {
            Some(i) => i,
            None => {
                return Err(CassegrainError::ConfigNotFound);
            },
        };
        proof {
            lemma_config_idx(self.configs@, authority, cfg_i as int);
        }
        if self.configs[cfg_i].is_paused {
            return Err(CassegrainError::ProgramPaused);
        }
        if self.find_manufacturer(signer).is_none() {
            return Err(CassegrainError::ManufacturerNotFound);
        }
        match &metadata_ipfs {
            Some(m) => {
                if text_len(m) > MAX_TEXT_BYTES {
                    return Err(CassegrainError::InvalidIPFSHash);
                }
            },
            None => {},
        }
        if self.batches[bj].batch.total_events > 0 {
            let elapsed = now - self.batches[bj].batch.last_updated;
            if elapsed < self.configs[cfg_i].min_event_interval {
                return Err(CassegrainError::EventTooFrequent);
            }
        }
        let nb = ProductBatch {
            batch_id: self.batches[bj].batch.batch_id,
            manufacturer_name: self.batches[bj].batch.manufacturer_name.clone(),
            status: self.batches[bj].batch.status,
            created_at: self.batches[bj].batch.created_at,
            last_updated: now,
            metadata_ipfs: crate::state::duplicate_opt_text(&self.batches[bj].batch.metadata_ipfs),
            authenticity_verified: self.batches[bj].batch.authenticity_verified,
            category: self.batches[bj].batch.category,
            manufacturer: self.batches[bj].batch.manufacturer,
            event_account: self.batches[bj].batch.event_account,
            total_events: self.batches[bj].batch.total_events + 1,
            batch_size: self.batches[bj].batch.batch_size,
            bump: self.batches[bj].batch.bump,
        };
        self.batches[bj] = BatchSlot { batch: nb, residency: Residency::Resident };
        self.events.push(
            EventSlot {
                event: ProductEvent {
                    event_id,
                    batch_id,
                    product_event_type: event_type,
                    actor: signer,
                    timestamp: now,
                    metadata_ipfs,
                    verification_status: VerificationStatus::Pending,
                    order_status,
                    previous_event,
                    next_event: None,
                    bumps: bump,
                },
                residency: Residency::Resident,
            },
        );
        self.notifications.push(
            Notification::EventCreated(
                EventCreated { event_id, batch_id, event_type, actor: signer, timestamp: now },
            ),
        );
        proof {
            lemma_update_batch_push_event(
                *old(self),
                *self,
                bj as int,
                self.batches@[bj as int],
                self.events@.last(),
            );
        }
        Ok(())
    }
}

} // verus!
