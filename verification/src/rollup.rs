//! The rollup bridge: delegate, apply updates on the rollup venue,
//! commit, and undelegate.
//!
//! Delegation hands write control of one batch/event pair to the rollup
//! venue, which keeps a local copy.  While delegated, updates apply to
//! that copy as a sparse patch and are pushed back to durable storage by
//! an explicit commit; undelegation performs a final commit and returns
//! write control.  At every step exactly one venue owns each record.

use vstd::prelude::*;

use crate::error::CassegrainError;
use crate::notify::{Notification, StateUpdated, SupplyChainCompleted};
use crate::state::{
    opt_text_ok, text_len, ProductBatch, ProductEvent, Pubkey, MAX_TEXT_BYTES,
};
use crate::status::{EventType, OrderStatus, ProductStatus};
use crate::system::{
    batch_at, batch_idx, delegated_batch, delegated_event, entry_at, entry_idx, event_at,
    event_idx, has_batch, has_entry, has_event, lemma_batch_idx, lemma_entry_idx, lemma_entry_linked,
    lemma_event_idx, lemma_wf_unique, rollup_has_batch, rollup_has_event, unique_batches,
    unique_events, unique_rollup, BatchSlot, Cassegrain, EventSlot, Residency, RollupEntry,
};

verus! {

/// A sparse-patch field: the new value if one was supplied, else the
/// stored one.
pub open spec fn patched<T>(p: Option<T>, stored: T) -> T {
    match p {
        Some(v) => v,
        None => stored,
    }
}

/// A sparse-patch optional field: supplying a value overwrites the
/// stored link or pointer; supplying none leaves it untouched (a patch
/// can never clear a field).
pub open spec fn patched_opt<T>(p: Option<T>, stored: Option<T>) -> Option<T> {
    if p is Some {
        p
    } else {
        stored
    }
}

/// Error returned by [`Cassegrain::delegate_product`], or `None` when
/// it must succeed: both records must exist, the signer must be the
/// batch's recorded manufacturer, and neither record may already be
/// delegated (the durable venue no longer owns writes to a delegated
/// record).
pub open spec fn delegate_product_outcome(
    pre: Cassegrain,
    signer: Pubkey,
    batch_id: Pubkey,
    event_id: Pubkey,
) -> Option<CassegrainError> {
    if !has_batch(pre.batches@, batch_id) {
        Some(CassegrainError::BatchNotFound)
    } else if !has_event(pre.events@, event_id) {
        Some(CassegrainError::EventNotFound)
    } else if batch_at(pre.batches@, batch_id).batch.manufacturer != signer {
        Some(CassegrainError::Unauthorized)
    } else if batch_at(pre.batches@, batch_id).residency is Delegated {
        Some(CassegrainError::Unauthorized)
    } else if event_at(pre.events@, event_id).residency is Delegated {
        Some(CassegrainError::Unauthorized)
    } else {
        None
    }
}

/// Effect of a successful [`Cassegrain::delegate_product`]: both
/// durable records flip to `Delegated` and the rollup venue gains a
/// copy-on-delegate snapshot of the pair.  No notification is emitted.
pub open spec fn delegate_product_ok(
    pre: Cassegrain,
    post: Cassegrain,
    batch_id: Pubkey,
    event_id: Pubkey,
) -> bool {
    let bj = batch_idx(pre.batches@, batch_id);
    let ej = event_idx(pre.events@, event_id);
    &&& post.batches@ == pre.batches@.update(
        bj,
        BatchSlot { batch: pre.batches@[bj].batch, residency: Residency::Delegated },
    )
    &&& post.events@ == pre.events@.update(
        ej,
        EventSlot { event: pre.events@[ej].event, residency: Residency::Delegated },
    )
    &&& post.rollup@ == pre.rollup@.push(
        RollupEntry { batch: pre.batches@[bj].batch, event: pre.events@[ej].event },
    )
    &&& post.configs@ == pre.configs@
    &&& post.manufacturers@ == pre.manufacturers@
    &&& post.notifications@ == pre.notifications@
}

/// Error returned by [`Cassegrain::commit`], or `None` when it must
/// succeed: the pair must currently be delegated.  The commit is issued
/// by the rollup venue itself, so no signer is checked.
pub open spec fn commit_outcome(pre: Cassegrain, batch_id: Pubkey, event_id: Pubkey) -> Option<
    CassegrainError,
> {
    if !has_entry(pre.rollup@, batch_id, event_id) {
        Some(CassegrainError::BatchNotFound)
    } else {
        None
    }
}

/// Effect of a successful [`Cassegrain::commit`]: the rollup-local
/// values overwrite the durable records; delegation is retained, the
/// rollup copy stays, and nothing is emitted.
pub open spec fn commit_ok(
    pre: Cassegrain,
    post: Cassegrain,
    batch_id: Pubkey,
    event_id: Pubkey,
) -> bool {
    let en = entry_at(pre.rollup@, batch_id, event_id);
    let bj = batch_idx(pre.batches@, batch_id);
    let ej = event_idx(pre.events@, event_id);
    &&& post.batches@ == pre.batches@.update(
        bj,
        BatchSlot { batch: en.batch, residency: Residency::Delegated },
    )
    &&& post.events@ == pre.events@.update(
        ej,
        EventSlot { event: en.event, residency: Residency::Delegated },
    )
    &&& post.rollup@ == pre.rollup@
    &&& post.configs@ == pre.configs@
    &&& post.manufacturers@ == pre.manufacturers@
    &&& post.notifications@ == pre.notifications@
}

/// Error returned by [`Cassegrain::event_log`], or `None` when it must
/// succeed: the pair must be delegated and a supplied metadata patch
/// must fit the text bound.  Any signer may apply updates: only the
/// currently delegated venue can produce them.
pub open spec fn event_log_outcome(
    pre: Cassegrain,
    batch_id: Pubkey,
    event_id: Pubkey,
    metadata_ipfs: Option<String>,
) -> Option<CassegrainError> {
    if !has_entry(pre.rollup@, batch_id, event_id) {
        Some(CassegrainError::BatchNotFound)
    } else if !opt_text_ok(metadata_ipfs) {
        Some(CassegrainError::InvalidIPFSHash)
    } else {
        None
    }
}

/// The rollup-local batch record after one update: status patched,
/// count up one, clock refreshed, all else kept.
pub open spec fn patched_batch(
    en: RollupEntry,
    new_product_status: Option<ProductStatus>,
    now: i64,
) -> ProductBatch {
    ProductBatch {
        status: patched(new_product_status, en.batch.status),
        last_updated: now,
        total_events: (en.batch.total_events + 1) as u32,
        ..en.batch
    }
}

/// The rollup-local event record after one update: each supplied field
/// overwrites the stored one, absent fields stay, clock refreshed.
pub open spec fn patched_event(
    en: RollupEntry,
    new_order_status: Option<OrderStatus>,
    new_event_type: Option<EventType>,
    previous_event: Option<Pubkey>,
    next_event: Option<Pubkey>,
    metadata_ipfs: Option<String>,
    now: i64,
) -> ProductEvent {
    ProductEvent {
        product_event_type: patched(new_event_type, en.event.product_event_type),
        order_status: patched(new_order_status, en.event.order_status),
        previous_event: patched_opt(previous_event, en.event.previous_event),
        next_event: patched_opt(next_event, en.event.next_event),
        metadata_ipfs: patched_opt(metadata_ipfs, en.event.metadata_ipfs),
        timestamp: now,
        ..en.event
    }
}

/// Effect of a successful [`Cassegrain::event_log`]: the sparse patch
/// lands on the rollup copy, the event count rises by one
/// unconditionally, both clocks move to `now`, the patched values are
/// committed to durable storage (still delegated), and a `StateUpdated`
/// notification is appended.
pub open spec fn event_log_ok(
    pre: Cassegrain,
    post: Cassegrain,
    signer: Pubkey,
    batch_id: Pubkey,
    event_id: Pubkey,
    new_product_status: Option<ProductStatus>,
    new_order_status: Option<OrderStatus>,
    new_event_type: Option<EventType>,
    previous_event: Option<Pubkey>,
    next_event: Option<Pubkey>,
    metadata_ipfs: Option<String>,
    now: i64,
) -> bool {
    let k = entry_idx(pre.rollup@, batch_id, event_id);
    let en = pre.rollup@[k];
    let nb = patched_batch(en, new_product_status, now);
    let nev = patched_event(
        en,
        new_order_status,
        new_event_type,
        previous_event,
        next_event,
        metadata_ipfs,
        now,
    );
    let bj = batch_idx(pre.batches@, batch_id);
    let ej = event_idx(pre.events@, event_id);
    &&& post.rollup@ == pre.rollup@.update(k, RollupEntry { batch: nb, event: nev })
    &&& post.batches@ == pre.batches@.update(
        bj,
        BatchSlot { batch: nb, residency: Residency::Delegated },
    )
    &&& post.events@ == pre.events@.update(
        ej,
        EventSlot { event: nev, residency: Residency::Delegated },
    )
    &&& post.notifications@ == pre.notifications@.push(
        Notification::StateUpdated(
            StateUpdated {
                batch_id,
                event_id,
                updated_by: signer,
                batch_status: nb.status,
                order_status: nev.order_status,
                event_type: nev.product_event_type,
                timestamp: now,
            },
        ),
    )
    &&& post.configs@ == pre.configs@
    &&& post.manufacturers@ == pre.manufacturers@
}

/// Error returned by [`Cassegrain::undelegate_product`], or `None` when
/// it must succeed: the pair must be delegated, the signer must be the
/// batch's recorded manufacturer, and the delegated event must actually
/// belong to the named batch.
pub open spec fn undelegate_product_outcome(
    pre: Cassegrain,
    signer: Pubkey,
    batch_id: Pubkey,
    event_id: Pubkey,
) -> Option<CassegrainError> {
    if !has_entry(pre.rollup@, batch_id, event_id) {
        Some(CassegrainError::BatchNotFound)
    } else if batch_at(pre.batches@, batch_id).batch.manufacturer != signer {
        Some(CassegrainError::Unauthorized)
    } else if entry_at(pre.rollup@, batch_id, event_id).event.batch_id != batch_id {
        Some(CassegrainError::InvalidBatchId)
    } else {
        None
    }
}

/// Effect of a successful [`Cassegrain::undelegate_product`]: a final
/// commit of the rollup-local values with both clocks advanced to
/// `now`, both records back to `Resident`, the rollup entry gone, and a
/// `SupplyChainCompleted` notification carrying the final state.
pub open spec fn undelegate_product_ok(
    pre: Cassegrain,
    post: Cassegrain,
    signer: Pubkey,
    batch_id: Pubkey,
    event_id: Pubkey,
    now: i64,
) -> bool {
    let k = entry_idx(pre.rollup@, batch_id, event_id);
    let en = pre.rollup@[k];
    let fb = ProductBatch { last_updated: now, ..en.batch };
    let fe = ProductEvent { timestamp: now, ..en.event };
    let bj = batch_idx(pre.batches@, batch_id);
    let ej = event_idx(pre.events@, event_id);
    &&& post.batches@ == pre.batches@.update(
        bj,
        BatchSlot { batch: fb, residency: Residency::Resident },
    )
    &&& post.events@ == pre.events@.update(
        ej,
        EventSlot { event: fe, residency: Residency::Resident },
    )
    &&& post.rollup@ == pre.rollup@.remove(k)
    &&& post.notifications@ == pre.notifications@.push(
        Notification::SupplyChainCompleted(
            SupplyChainCompleted {
                batch_id,
                event_id,
                final_status: en.batch.status,
                final_order_status: en.event.order_status,
                verification_status: en.event.verification_status,
                total_events: en.batch.total_events,
                completed_by: signer,
                completion_timestamp: now,
            },
        ),
    )
    &&& post.configs@ == pre.configs@
    &&& post.manufacturers@ == pre.manufacturers@
}

/// No rollup entry can carry the id of a resident record: entries imply
/// delegated tags.
proof fn lemma_resident_not_on_rollup(pre: Cassegrain, bj: int, ej: int)
    requires
        pre.wf(),
        0 <= bj < pre.batches@.len(),
        0 <= ej < pre.events@.len(),
        pre.batches@[bj].residency is Resident,
        pre.events@[ej].residency is Resident,
    ensures
        forall|k: int|
            0 <= k < pre.rollup@.len() ==> (#[trigger] pre.rollup@[k]).batch.batch_id
                != pre.batches@[bj].batch.batch_id && pre.rollup@[k].event.event_id
                != pre.events@[ej].event.event_id,
{
    reveal(Cassegrain::wf);
    let batch_id = pre.batches@[bj].batch.batch_id;
    let event_id = pre.events@[ej].event.event_id;
    assert forall|k: int|
        0 <= k < pre.rollup@.len() implies (#[trigger] pre.rollup@[k]).batch.batch_id != batch_id
        && pre.rollup@[k].event.event_id != event_id by {
        let en = pre.rollup@[k];
        if en.batch.batch_id == batch_id {
            let j = choose|j: int|
                0 <= j < pre.batches@.len() && (#[trigger] pre.batches@[j]).batch.batch_id
                    == batch_id && pre.batches@[j].residency is Delegated;
            if j < bj {
                assert(pre.batches@[j].batch.batch_id != pre.batches@[bj].batch.batch_id);
            } else if bj < j {
                assert(pre.batches@[bj].batch.batch_id != pre.batches@[j].batch.batch_id);
            }
            assert(false);
        }
        if en.event.event_id == event_id {
            let j = choose|j: int|
                0 <= j < pre.events@.len() && (#[trigger] pre.events@[j]).event.event_id
                    == event_id && pre.events@[j].residency is Delegated;
            if j < ej {
                assert(pre.events@[j].event.event_id != pre.events@[ej].event.event_id);
            } else if ej < j {
                assert(pre.events@[ej].event.event_id != pre.events@[j].event.event_id);
            }
            assert(false);
        }
    }
}

/// Delegation keeps the system well-formed: the snapshot entry is fresh
/// on the rollup, and the flipped tags match it.
proof fn lemma_delegate_wf(pre: Cassegrain, post: Cassegrain, batch_id: Pubkey, event_id: Pubkey)
    requires
        pre.wf(),
        has_batch(pre.batches@, batch_id),
        has_event(pre.events@, event_id),
        !(batch_at(pre.batches@, batch_id).residency is Delegated),
        !(event_at(pre.events@, event_id).residency is Delegated),
        delegate_product_ok(pre, post, batch_id, event_id),
    ensures
        post.wf(),
{
    reveal(Cassegrain::wf);
    let old_b = pre.batches@;
    let old_e = pre.events@;
    let old_r = pre.rollup@;
    let bj = batch_idx(old_b, batch_id);
    let ej = event_idx(old_e, event_id);
    let nr = old_r.len() as int;
    assert(0 <= bj < old_b.len() && old_b[bj].batch.batch_id == batch_id);
    assert(0 <= ej < old_e.len() && old_e[ej].event.event_id == event_id);
    lemma_resident_not_on_rollup(pre, bj, ej);
    assert forall|i: int| 0 <= i < post.batches@.len() implies (#[trigger] post.batches@[i]).batch
        == old_b[i].batch by {}
    assert forall|i: int| 0 <= i < post.events@.len() implies (#[trigger] post.events@[i]).event
        == old_e[i].event by {}
    assert(unique_batches(post.batches@));
    assert(unique_events(post.events@));
    assert(unique_rollup(post.rollup@));
    assert forall|k: int| 0 <= k < post.rollup@.len() implies delegated_batch(
        post.batches@,
        (#[trigger] post.rollup@[k]).batch.batch_id,
    ) && delegated_event(post.events@, post.rollup@[k].event.event_id) by {
        if k < nr {
            let en = old_r[k];
            assert(post.rollup@[k] == en);
            let j = choose|j: int|
                0 <= j < old_b.len() && (#[trigger] old_b[j]).batch.batch_id == en.batch.batch_id
                    && old_b[j].residency is Delegated;
            assert(j != bj);
            assert(post.batches@[j] == old_b[j]);
            let j2 = choose|j2: int|
                0 <= j2 < old_e.len() && (#[trigger] old_e[j2]).event.event_id == en.event.event_id
                    && old_e[j2].residency is Delegated;
            assert(j2 != ej);
            assert(post.events@[j2] == old_e[j2]);
        } else {
            assert(post.rollup@[k].batch.batch_id == batch_id);
            assert(post.batches@[bj].batch.batch_id == batch_id && post.batches@[bj].residency
                is Delegated);
            assert(post.events@[ej].event.event_id == event_id && post.events@[ej].residency
                is Delegated);
        }
    }
    assert forall|i: int|
        0 <= i < post.batches@.len() && (#[trigger] post.batches@[i]).residency is Delegated implies
        rollup_has_batch(post.rollup@, post.batches@[i].batch.batch_id) by {
        if i == bj {
            assert(post.rollup@[nr].batch.batch_id == batch_id);
        } else {
            assert(old_b[i].residency is Delegated);
            let k = choose|k: int|
                0 <= k < old_r.len() && old_r[k].batch.batch_id == old_b[i].batch.batch_id;
            assert(post.rollup@[k] == old_r[k]);
        }
    }
    assert forall|i: int|
        0 <= i < post.events@.len() && (#[trigger] post.events@[i]).residency is Delegated implies
        rollup_has_event(post.rollup@, post.events@[i].event.event_id) by {
        if i == ej {
            assert(post.rollup@[nr].event.event_id == event_id);
        } else {
            assert(old_e[i].residency is Delegated);
            let k = choose|k: int|
                0 <= k < old_r.len() && old_r[k].event.event_id == old_e[i].event.event_id;
            assert(post.rollup@[k] == old_r[k]);
        }
    }
}

/// Overwriting the two delegated durable records with well-formed
/// values that keep their ids, while the rollup entry keeps its ids
/// too, keeps the system well-formed.  Covers both plain commits and
/// the committed sparse patch.
proof fn lemma_committed_pair_wf(
    pre: Cassegrain,
    post: Cassegrain,
    batch_id: Pubkey,
    event_id: Pubkey,
    nb: ProductBatch,
    nev: ProductEvent,
)
    requires
        pre.wf(),
        has_entry(pre.rollup@, batch_id, event_id),
        nb.batch_id == batch_id,
        nev.event_id == event_id,
        nb.wf(),
        nev.wf(),
        post.batches@ == pre.batches@.update(
            batch_idx(pre.batches@, batch_id),
            BatchSlot { batch: nb, residency: Residency::Delegated },
        ),
        post.events@ == pre.events@.update(
            event_idx(pre.events@, event_id),
            EventSlot { event: nev, residency: Residency::Delegated },
        ),
        post.rollup@ == pre.rollup@ || post.rollup@ == pre.rollup@.update(
            entry_idx(pre.rollup@, batch_id, event_id),
            RollupEntry { batch: nb, event: nev },
        ),
        post.configs@ == pre.configs@,
        post.manufacturers@ == pre.manufacturers@,
    ensures
        post.wf(),
{
    reveal(Cassegrain::wf);
    let old_b = pre.batches@;
    let old_e = pre.events@;
    let old_r = pre.rollup@;
    let k0 = entry_idx(old_r, batch_id, event_id);
    assert(0 <= k0 < old_r.len() && old_r[k0].batch.batch_id == batch_id
        && old_r[k0].event.event_id == event_id);
    let jb = choose|j: int|
        0 <= j < old_b.len() && (#[trigger] old_b[j]).batch.batch_id == batch_id && old_b[
            j
        ].residency is Delegated;
    let je = choose|j: int|
        0 <= j < old_e.len() && (#[trigger] old_e[j]).event.event_id == event_id && old_e[
            j
        ].residency is Delegated;
    assert(has_batch(old_b, batch_id));
    assert(has_event(old_e, event_id));
    let bj = batch_idx(old_b, batch_id);
    let ej = event_idx(old_e, event_id);
    lemma_batch_idx(old_b, batch_id, jb);
    lemma_event_idx(old_e, event_id, je);
    assert(jb == bj && je == ej);
    assert forall|i: int| 0 <= i < post.batches@.len() implies (#[trigger] post.batches@[
        i
    ]).batch.batch_id == old_b[i].batch.batch_id && post.batches@[i].residency == old_b[
        i
    ].residency && post.batches@[i].batch.wf() by {
        if i != bj {
            assert(post.batches@[i] == old_b[i]);
        }
    }
    assert forall|i: int| 0 <= i < post.events@.len() implies (#[trigger] post.events@[
        i
    ]).event.event_id == old_e[i].event.event_id && post.events@[i].residency == old_e[i].residency
        && post.events@[i].event.wf() by {
        if i != ej {
            assert(post.events@[i] == old_e[i]);
        }
    }
    assert forall|k: int| 0 <= k < post.rollup@.len() implies (#[trigger] post.rollup@[
        k
    ]).batch.batch_id == old_r[k].batch.batch_id && post.rollup@[k].event.event_id == old_r[
        k
    ].event.event_id && post.rollup@[k].batch.wf() && post.rollup@[k].event.wf() by {
        if post.rollup@ == old_r || k != k0 {
            assert(post.rollup@[k] == old_r[k]);
        }
    }
    assert(unique_batches(post.batches@));
    assert(unique_events(post.events@));
    assert(unique_rollup(post.rollup@));
    assert forall|k: int| 0 <= k < post.rollup@.len() implies delegated_batch(
        post.batches@,
        (#[trigger] post.rollup@[k]).batch.batch_id,
    ) && delegated_event(post.events@, post.rollup@[k].event.event_id) by {
        let id_b = old_r[k].batch.batch_id;
        let id_e = old_r[k].event.event_id;
        let j = choose|j: int|
            0 <= j < old_b.len() && (#[trigger] old_b[j]).batch.batch_id == id_b && old_b[
                j
            ].residency is Delegated;
        assert(post.batches@[j].batch.batch_id == id_b && post.batches@[j].residency
            is Delegated);
        let j2 = choose|j2: int|
            0 <= j2 < old_e.len() && (#[trigger] old_e[j2]).event.event_id == id_e && old_e[
                j2
            ].residency is Delegated;
        assert(post.events@[j2].event.event_id == id_e && post.events@[j2].residency
            is Delegated);
    }
    assert forall|i: int|
        0 <= i < post.batches@.len() && (#[trigger] post.batches@[i]).residency is Delegated implies
        rollup_has_batch(post.rollup@, post.batches@[i].batch.batch_id) by {
        assert(old_b[i].residency is Delegated);
        let k = choose|k: int|
            0 <= k < old_r.len() && old_r[k].batch.batch_id == old_b[i].batch.batch_id;
        assert(post.rollup@[k].batch.batch_id == old_r[k].batch.batch_id);
    }
    assert forall|i: int|
        0 <= i < post.events@.len() && (#[trigger] post.events@[i]).residency is Delegated implies
        rollup_has_event(post.rollup@, post.events@[i].event.event_id) by {
        assert(old_e[i].residency is Delegated);
        let k = choose|k: int|
            0 <= k < old_r.len() && old_r[k].event.event_id == old_e[i].event.event_id;
        assert(post.rollup@[k].event.event_id == old_r[k].event.event_id);
    }
}

/// Undelegation keeps the system well-formed: the entry leaves the
/// rollup and exactly the matching tags return to `Resident`.
#[verifier::rlimit(50)]
proof fn lemma_undelegate_wf(
    pre: Cassegrain,
    post: Cassegrain,
    signer: Pubkey,
    batch_id: Pubkey,
    event_id: Pubkey,
    now: i64,
)
    requires
        pre.wf(),
        0 <= now,
        undelegate_product_outcome(pre, signer, batch_id, event_id) is None,
        undelegate_product_ok(pre, post, signer, batch_id, event_id, now),
    ensures
        post.wf(),
{
    reveal(Cassegrain::wf);
    let old_b = pre.batches@;
    let old_e = pre.events@;
    let old_r = pre.rollup@;
    let k0 = entry_idx(old_r, batch_id, event_id);
    assert(0 <= k0 < old_r.len() && old_r[k0].batch.batch_id == batch_id
        && old_r[k0].event.event_id == event_id);
    let jb = choose|j: int|
        0 <= j < old_b.len() && (#[trigger] old_b[j]).batch.batch_id == batch_id && old_b[
            j
        ].residency is Delegated;
    let je = choose|j: int|
        0 <= j < old_e.len() && (#[trigger] old_e[j]).event.event_id == event_id && old_e[
            j
        ].residency is Delegated;
    assert(has_batch(old_b, batch_id));
    assert(has_event(old_e, event_id));
    let bj = batch_idx(old_b, batch_id);
    let ej = event_idx(old_e, event_id);
    lemma_batch_idx(old_b, batch_id, jb);
    lemma_event_idx(old_e, event_id, je);
    assert(jb == bj && je == ej);
    old_r.remove_ensures(k0);
    assert(post.rollup@.len() == old_r.len() - 1);
    assert forall|i: int| 0 <= i < post.batches@.len() implies (#[trigger] post.batches@[
        i
    ]).batch.batch_id == old_b[i].batch.batch_id && post.batches@[i].batch.wf() by {
        if i != bj {
            assert(post.batches@[i] == old_b[i]);
        }
    }
    assert forall|i: int| 0 <= i < post.events@.len() implies (#[trigger] post.events@[
        i
    ]).event.event_id == old_e[i].event.event_id && post.events@[i].event.wf() by {
        if i != ej {
            assert(post.events@[i] == old_e[i]);
        }
    }
    assert(unique_batches(post.batches@));
    assert(unique_events(post.events@));
    assert(unique_rollup(post.rollup@)) by {
        assert forall|i: int, j: int| 0 <= i < j < post.rollup@.len() implies (
        #[trigger] post.rollup@[i]).batch.batch_id != (#[trigger] post.rollup@[j]).batch.batch_id
            && post.rollup@[i].event.event_id != post.rollup@[j].event.event_id by {
            let i2 = if i < k0 {
                i
            } else {
                i + 1
            };
            let j2 = if j < k0 {
                j
            } else {
                j + 1
            };
            assert(post.rollup@[i] == old_r[i2]);
            assert(post.rollup@[j] == old_r[j2]);
            assert(i2 < j2);
        }
    }
    assert forall|k: int| 0 <= k < post.rollup@.len() implies delegated_batch(
        post.batches@,
        (#[trigger] post.rollup@[k]).batch.batch_id,
    ) && delegated_event(post.events@, post.rollup@[k].event.event_id) by {
        let k2 = if k < k0 {
            k
        } else {
            k + 1
        };
        let en = old_r[k2];
        assert(post.rollup@[k] == en);
        assert(en.batch.batch_id != batch_id && en.event.event_id != event_id);
        let j = choose|j: int|
            0 <= j < old_b.len() && (#[trigger] old_b[j]).batch.batch_id == en.batch.batch_id
                && old_b[j].residency is Delegated;
        assert(j != bj);
        assert(post.batches@[j] == old_b[j]);
        let j2 = choose|j2: int|
            0 <= j2 < old_e.len() && (#[trigger] old_e[j2]).event.event_id == en.event.event_id
                && old_e[j2].residency is Delegated;
        assert(j2 != ej);
        assert(post.events@[j2] == old_e[j2]);
    }
    assert forall|i: int|
        0 <= i < post.batches@.len() && (#[trigger] post.batches@[i]).residency is Delegated implies
        rollup_has_batch(post.rollup@, post.batches@[i].batch.batch_id) by {
        assert(i != bj);
        assert(post.batches@[i] == old_b[i]);
        assert(old_b[i].residency is Delegated);
        let k = choose|k: int|
            0 <= k < old_r.len() && old_r[k].batch.batch_id == old_b[i].batch.batch_id;
        assert(old_r[k].batch.batch_id != batch_id);
        assert(k != k0);
        if k < k0 {
            assert(post.rollup@[k] == old_r[k]);
        } else {
            assert(post.rollup@[k - 1] == old_r[k]);
        }
    }
    assert forall|i: int|
        0 <= i < post.events@.len() && (#[trigger] post.events@[i]).residency is Delegated implies
        rollup_has_event(post.rollup@, post.events@[i].event.event_id) by {
        assert(i != ej);
        assert(post.events@[i] == old_e[i]);
        assert(old_e[i].residency is Delegated);
        let k = choose|k: int|
            0 <= k < old_r.len() && old_r[k].event.event_id == old_e[i].event.event_id;
        assert(old_r[k].event.event_id != event_id);
        assert(k != k0);
        if k < k0 {
            assert(post.rollup@[k] == old_r[k]);
        } else {
            assert(post.rollup@[k - 1] == old_r[k]);
        }
    }
}


impl Cassegrain {
    /// Hands write control of a batch/event pair to the rollup venue,
    /// which receives a copy-on-delegate snapshot.  Only the batch's
    /// recorded manufacturer may delegate, and only resident records
    /// can be handed over.
    pub fn delegate_product(&mut self, signer: Pubkey, batch_id: Pubkey, event_id: Pubkey) -> (r:
        Result<(), CassegrainError>)
        requires
            old(self).wf(),
        ensures
            final(self).wf(),
            match delegate_product_outcome(*old(self), signer, batch_id, event_id) {
                Some(e) => r == Err::<(), CassegrainError>(e) && *final(self) == *old(self),
                None => r is Ok && delegate_product_ok(*old(self), *final(self), batch_id, event_id),
            },
    {
        proof {
            lemma_wf_unique(*self);
        }
        let bj = match self.find_batch(batch_id) {
            Some(i) => i,
            None => {
                return Err(CassegrainError::BatchNotFound);
            },
        };
        proof {
            lemma_batch_idx(self.batches@, batch_id, bj as int);
        }
        let ej = match self.find_event(event_id) {
            Some(i) => i,
            None => {
                return Err(CassegrainError::EventNotFound);
            },
        };
        proof {
            lemma_event_idx(self.events@, event_id, ej as int);
        }
        if self.batches[bj].batch.manufacturer != signer {
            return Err(CassegrainError::Unauthorized);
        }
        if self.batches[bj].residency == Residency::Delegated {
            return Err(CassegrainError::Unauthorized);
        }
        if self.events[ej].residency == Residency::Delegated {
            return Err(CassegrainError::Unauthorized);
        }
        let snap_batch = self.batches[bj].batch.duplicate();
        let snap_event = self.events[ej].event.duplicate();
        let keep_batch = snap_batch.duplicate();
        let keep_event = snap_event.duplicate();
        self.batches[bj] = BatchSlot { batch: keep_batch, residency: Residency::Delegated };
        self.events[ej] = EventSlot { event: keep_event, residency: Residency::Delegated };
        self.rollup.push(RollupEntry { batch: snap_batch, event: snap_event });
        proof {
            lemma_delegate_wf(*old(self), *self, batch_id, event_id);
        }
        Ok(())
    }

    /// Pushes the rollup-local values of a delegated pair back to
    /// durable storage without relinquishing delegation; used for
    /// incremental checkpointing.
    pub fn commit(&mut self, batch_id: Pubkey, event_id: Pubkey) -> (r: Result<
        (),
        CassegrainError,
    >)
        requires
            old(self).wf(),
        ensures
            final(self).wf(),
            match commit_outcome(*old(self), batch_id, event_id) {
                Some(e) => r == Err::<(), CassegrainError>(e) && *final(self) == *old(self),
                None => r is Ok && commit_ok(*old(self), *final(self), batch_id, event_id),
            },
    {
        proof {
            lemma_wf_unique(*self);
        }
        let k = match self.find_entry(batch_id, event_id) {
            Some(i) => i,
            None => {
                return Err(CassegrainError::BatchNotFound);
            },
        };
        proof {
            lemma_entry_idx(self.rollup@, batch_id, event_id, k as int);
            lemma_entry_linked(*self, k as int);
        }
        let bj = match self.find_batch(batch_id) {
            Some(i) => i,
            None => {
                proof {
                    assert(false);
                }
                return Err(CassegrainError::BatchNotFound);
            },
        };
        proof {
            lemma_batch_idx(self.batches@, batch_id, bj as int);
        }
        let ej = match self.find_event(event_id) {
            Some(i) => i,
            None => {
                proof {
                    assert(false);
                }
                return Err(CassegrainError::EventNotFound);
            },
        };
        proof {
            lemma_event_idx(self.events@, event_id, ej as int);
        }
        let nb = self.rollup[k].batch.duplicate();
        let nev = self.rollup[k].event.duplicate();
        self.batches[bj] = BatchSlot { batch: nb, residency: Residency::Delegated };
        self.events[ej] = EventSlot { event: nev, residency: Residency::Delegated };
        proof {
            lemma_committed_pair_wf(
                *old(self),
                *self,
                batch_id,
                event_id,
                self.batches@[bj as int].batch,
                self.events@[ej as int].event,
            );
        }
        Ok(())
    }

    /// Applies a sparse patch to the rollup-local copy of a delegated
    /// pair and commits the result to durable storage.  Only supplied
    /// fields overwrite; the event count rises by one on every call and
    /// both clocks move to the rollup venue's `now`.
    ///
    /// The count requirement reflects the machine bound on the event
    /// counter, which rises by one here.
    #[verifier::rlimit(100)]
    pub fn event_log(
        &mut self,
        signer: Pubkey,
        batch_id: Pubkey,
        event_id: Pubkey,
        new_product_status: Option<ProductStatus>,
        new_order_status: Option<OrderStatus>,
        new_event_type: Option<EventType>,
        previous_event: Option<Pubkey>,
        next_event: Option<Pubkey>,
        metadata_ipfs: Option<String>,
        now: i64,
    ) -> (r: Result<(), CassegrainError>)
        requires
            old(self).wf(),
            0 <= now,
            has_entry(old(self).rollup@, batch_id, event_id) ==> entry_at(
                old(self).rollup@,
                batch_id,
                event_id,
            ).batch.total_events < u32::MAX,
        ensures
            final(self).wf(),
            match event_log_outcome(*old(self), batch_id, event_id, metadata_ipfs) {
                Some(e) => r == Err::<(), CassegrainError>(e) && *final(self) == *old(self),
                None => r is Ok && event_log_ok(
                    *old(self),
                    *final(self),
                    signer,
                    batch_id,
                    event_id,
                    new_product_status,
                    new_order_status,
                    new_event_type,
                    previous_event,
                    next_event,
                    metadata_ipfs,
                    now,
                ),
            },
    {
        proof {
            lemma_wf_unique(*self);
        }
        let k = match self.find_entry(batch_id, event_id) {
            Some(i) => i,
            None => {
                return Err(CassegrainError::BatchNotFound);
            },
        };
        proof {
            lemma_entry_idx(self.rollup@, batch_id, event_id, k as int);
            lemma_entry_linked(*self, k as int);
        }
        match &metadata_ipfs {
            Some(m) => {
                if text_len(m) > MAX_TEXT_BYTES {
                    return Err(CassegrainError::InvalidIPFSHash);
                }
            },
            None => {},
        }
        let bj = match self.find_batch(batch_id) {
            Some(i) => i,
            None => {
                proof {
                    assert(false);
                }
                return Err(CassegrainError::BatchNotFound);
            },
        };
        proof {
            lemma_batch_idx(self.batches@, batch_id, bj as int);
        }
        let ej = match self.find_event(event_id) {
            Some(i) => i,
            None => {
                proof {
                    assert(false);
                }
                return Err(CassegrainError::EventNotFound);
            },
        };
        proof {
            lemma_event_idx(self.events@, event_id, ej as int);
        }
        let mut nb = self.rollup[k].batch.duplicate();
        if let Some(status) = new_product_status {
            nb.status = status;
        }
        nb.last_updated = now;
        nb.total_events = nb.total_events + 1;
        let mut nev = self.rollup[k].event.duplicate();
        if let Some(event_type) = new_event_type {
            nev.product_event_type = event_type;
        }
        if let Some(order_status) = new_order_status {
            nev.order_status = order_status;
        }
        if let Some(prev) = previous_event {
            nev.previous_event = Some(prev);
        }
        if let Some(next) = next_event {
            nev.next_event = Some(next);
        }
        match &metadata_ipfs {
            Some(m) => {
                nev.metadata_ipfs = Some(m.clone());
            },
            None => {},
        }
        nev.timestamp = now;
        self.rollup[k] = RollupEntry { batch: nb.duplicate(), event: nev.duplicate() };
        self.batches[bj] = BatchSlot { batch: nb, residency: Residency::Delegated };
        self.events[ej] = EventSlot { event: nev, residency: Residency::Delegated };
        self.notifications.push(
            Notification::StateUpdated(
                StateUpdated {
                    batch_id,
                    event_id,
                    updated_by: signer,
                    batch_status: self.batches[bj].batch.status,
                    order_status: self.events[ej].event.order_status,
                    event_type: self.events[ej].event.product_event_type,
                    timestamp: now,
                },
            ),
        );
        proof {
            lemma_committed_pair_wf(
                *old(self),
                *self,
                batch_id,
                event_id,
                self.batches@[bj as int].batch,
                self.events@[ej as int].event,
            );
        }
        Ok(())
    }

    /// Final commit plus return of write control: the rollup-local
    /// values land in durable storage with both clocks advanced, the
    /// records become resident again, and a completion notification is
    /// emitted.  Only the batch's recorded manufacturer may undelegate.
    pub fn undelegate_product(
        &mut self,
        signer: Pubkey,
        batch_id: Pubkey,
        event_id: Pubkey,
        now: i64,
    ) -> (r: Result<(), CassegrainError>)
        requires
            old(self).wf(),
            0 <= now,
        ensures
            final(self).wf(),
            match undelegate_product_outcome(*old(self), signer, batch_id, event_id) {
                Some(e) => r == Err::<(), CassegrainError>(e) && *final(self) == *old(self),
                None => r is Ok && undelegate_product_ok(
                    *old(self),
                    *final(self),
                    signer,
                    batch_id,
                    event_id,
                    now,
                ),
            },
    {
        proof {
            lemma_wf_unique(*self);
        }
        let k = match self.find_entry(batch_id, event_id) {
            Some(i) => i,
            None => {
                return Err(CassegrainError::BatchNotFound);
            },
        };
        proof {
            lemma_entry_idx(self.rollup@, batch_id, event_id, k as int);
            lemma_entry_linked(*self, k as int);
        }
        let bj = match self.find_batch(batch_id) {
            Some(i) => i,
            None => {
                proof {
                    assert(false);
                }
                return Err(CassegrainError::BatchNotFound);
            },
        };
        proof {
            lemma_batch_idx(self.batches@, batch_id, bj as int);
        }
        if self.batches[bj].batch.manufacturer != signer {
            return Err(CassegrainError::Unauthorized);
        }
        if self.rollup[k].event.batch_id != batch_id {
            return Err(CassegrainError::InvalidBatchId);
        }
        let ej = match self.find_event(event_id) {
            Some(i) => i,
            None => {
                proof {
                    assert(false);
                }
                return Err(CassegrainError::EventNotFound);
            },
        };
        proof {
            lemma_event_idx(self.events@, event_id, ej as int);
        }
        let completed = SupplyChainCompleted {
            batch_id,
            event_id,
            final_status: self.rollup[k].batch.status,
            final_order_status: self.rollup[k].event.order_status,
            verification_status: self.rollup[k].event.verification_status,
            total_events: self.rollup[k].batch.total_events,
            completed_by: signer,
            completion_timestamp: now,
        };
        let mut fb = self.rollup[k].batch.duplicate();
        fb.last_updated = now;
        let mut fe = self.rollup[k].event.duplicate();
        fe.timestamp = now;
        self.batches[bj] = BatchSlot { batch: fb, residency: Residency::Resident };
        self.events[ej] = EventSlot { event: fe, residency: Residency::Resident };
        self.rollup.remove(k);
        self.notifications.push(Notification::SupplyChainCompleted(completed));
        proof {
            lemma_undelegate_wf(*old(self), *self, signer, batch_id, event_id, now);
        }
        Ok(())
    }
}

} // verus!
