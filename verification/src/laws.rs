//! System-wide laws, proved once and for all over the operation
//! contracts: idempotent registration, exact event counting, the
//! first-event exemption from rate limiting, the delegate/undelegate
//! round trip, sparse-patch framing, and authorization.

use vstd::prelude::*;

use crate::error::CassegrainError;
use crate::events::{create_event_ok, create_event_outcome, created_event};
use crate::registry::{register_product_batch_ok, register_product_batch_outcome};
use crate::rollup::{
    delegate_product_ok, delegate_product_outcome, event_log_ok, undelegate_product_ok,
    undelegate_product_outcome,
};
use crate::state::{opt_text_ok, ProductBatch, ProductEvent, Pubkey};
use crate::status::{EventType, OrderStatus};
use crate::system::{
    batch_at, batch_idx, config_at, entry_at, entry_idx, event_at, event_idx, has_batch,
    has_config, has_entry, has_event, has_manufacturer, lemma_batch_idx, lemma_entry_idx,
    lemma_event_idx, lemma_wf_unique, manufacturer_at, unique_batches, unique_events,
    unique_rollup, Cassegrain, EventSlot, Residency,
};

verus! {

/// Every batch size in `[1, max_batch_size]` is accepted: when the
/// configuration exists and is not paused and the signer is a verified
/// manufacturer, batch registration is owed success, whatever the
/// batch id.
pub proof fn lemma_register_batch_succeeds(
    pre: Cassegrain,
    authority: Pubkey,
    signer: Pubkey,
    metadata_ipfs: Option<String>,
    batch_size: u8,
)
    requires
        has_config(pre.configs@, authority),
        !config_at(pre.configs@, authority).is_paused,
        has_manufacturer(pre.manufacturers@, signer),
        manufacturer_at(pre.manufacturers@, signer).is_verified,
        1 <= batch_size <= config_at(pre.configs@, authority).max_batch_size,
        opt_text_ok(metadata_ipfs),
    ensures
        register_product_batch_outcome(pre, authority, signer, metadata_ipfs, batch_size) is None,
{
}

/// Registration is idempotent per batch id: a successful call for an
/// id that already exists is a complete no-op — every store and the
/// notification stream are left exactly as they were.
pub proof fn lemma_register_batch_idempotent(
    pre: Cassegrain,
    post: Cassegrain,
    authority: Pubkey,
    signer: Pubkey,
    batch_id: Pubkey,
    metadata_ipfs: Option<String>,
    category: crate::status::ProductCategory,
    batch_size: u8,
    now: i64,
    bump: u8,
)
    requires
        has_batch(pre.batches@, batch_id),
        register_product_batch_ok(
            pre,
            post,
            authority,
            signer,
            batch_id,
            metadata_ipfs,
            category,
            batch_size,
            now,
            bump,
        ),
    ensures
        post.batches@ == pre.batches@,
        post.events@ == pre.events@,
        post.rollup@ == pre.rollup@,
        post.configs@ == pre.configs@,
        post.manufacturers@ == pre.manufacturers@,
        post.notifications@ == pre.notifications@,
{
}

/// A fresh batch is never rate limited: while `total_events == 0`, the
/// outcome of event creation cannot be `EventTooFrequent`, however
/// close together the calls come.
pub proof fn lemma_first_event_unlimited(
    pre: Cassegrain,
    authority: Pubkey,
    signer: Pubkey,
    batch_id: Pubkey,
    event_id: Pubkey,
    metadata_ipfs: Option<String>,
    now: i64,
)
    requires
        has_batch(pre.batches@, batch_id),
        batch_at(pre.batches@, batch_id).batch.total_events == 0,
    ensures
        create_event_outcome(pre, authority, signer, batch_id, event_id, metadata_ipfs, now)
            != Some(CassegrainError::EventTooFrequent),
{
}

/// Once a batch has events, a call earlier than `min_event_interval`
/// seconds after its `last_updated` fails with exactly
/// `EventTooFrequent`, provided every other check passes.
pub proof fn lemma_rate_limited(
    pre: Cassegrain,
    authority: Pubkey,
    signer: Pubkey,
    batch_id: Pubkey,
    event_id: Pubkey,
    metadata_ipfs: Option<String>,
    now: i64,
)
    requires
        !has_event(pre.events@, event_id),
        has_batch(pre.batches@, batch_id),
        !(batch_at(pre.batches@, batch_id).residency is Delegated),
        batch_at(pre.batches@, batch_id).batch.manufacturer == signer,
        has_config(pre.configs@, authority),
        !config_at(pre.configs@, authority).is_paused,
        has_manufacturer(pre.manufacturers@, signer),
        opt_text_ok(metadata_ipfs),
        batch_at(pre.batches@, batch_id).batch.total_events > 0,
        now - batch_at(pre.batches@, batch_id).batch.last_updated < config_at(
            pre.configs@,
            authority,
        ).min_event_interval,
    ensures
        create_event_outcome(pre, authority, signer, batch_id, event_id, metadata_ipfs, now)
            == Some(CassegrainError::EventTooFrequent),
{
}

/// One successful event creation raises the batch's count by exactly
/// one, stamps the batch with the call's clock, and appends exactly one
/// resident event record carrying that same clock.
pub proof fn lemma_create_event_step(
    pre: Cassegrain,
    post: Cassegrain,
    signer: Pubkey,
    batch_id: Pubkey,
    event_id: Pubkey,
    event_type: EventType,
    metadata_ipfs: Option<String>,
    order_status: OrderStatus,
    previous_event: Option<Pubkey>,
    now: i64,
    bump: u8,
)
    requires
        pre.wf(),
        has_batch(pre.batches@, batch_id),
        batch_at(pre.batches@, batch_id).batch.total_events < u32::MAX,
        create_event_ok(
            pre,
            post,
            signer,
            batch_id,
            event_id,
            event_type,
            metadata_ipfs,
            order_status,
            previous_event,
            now,
            bump,
        ),
    ensures
        has_batch(post.batches@, batch_id),
        batch_at(post.batches@, batch_id).batch.total_events == batch_at(
            pre.batches@,
            batch_id,
        ).batch.total_events + 1,
        batch_at(post.batches@, batch_id).batch.last_updated == now,
        post.events@.len() == pre.events@.len() + 1,
        post.events@ == pre.events@.push(
            EventSlot {
                event: created_event(
                    signer,
                    batch_id,
                    event_id,
                    event_type,
                    metadata_ipfs,
                    order_status,
                    previous_event,
                    now,
                    bump,
                ),
                residency: Residency::Resident,
            },
        ),
{
    lemma_wf_unique(pre);
    let bj = batch_idx(pre.batches@, batch_id);
    assert(0 <= bj < pre.batches@.len() && pre.batches@[bj].batch.batch_id == batch_id);
    assert forall|i: int| 0 <= i < post.batches@.len() implies (#[trigger] post.batches@[
        i
    ]).batch.batch_id == pre.batches@[i].batch.batch_id by {}
    assert(unique_batches(post.batches@));
    lemma_batch_idx(post.batches@, batch_id, bj);
}

/// The shape of one call in a run of event creations against a single
/// batch.
pub struct CreateEventCall {
    pub authority: Pubkey,
    pub signer: Pubkey,
    pub event_id: Pubkey,
    pub event_type: EventType,
    pub metadata_ipfs: Option<String>,
    pub order_status: OrderStatus,
    pub previous_event: Option<Pubkey>,
    pub now: i64,
    pub bump: u8,
}

/// `states` is a run of successful event creations against `batch_id`:
/// each state is well-formed and each consecutive pair is related by
/// one call's effect.
pub open spec fn create_event_chain(
    states: Seq<Cassegrain>,
    calls: Seq<CreateEventCall>,
    batch_id: Pubkey,
) -> bool {
    &&& states.len() == calls.len() + 1
    &&& forall|k: int| 0 <= k < states.len() ==> (#[trigger] states[k]).wf()
    &&& forall|k: int|
        0 <= k < calls.len() ==> create_event_ok(
            states[k],
            states[k + 1],
            (#[trigger] calls[k]).signer,
            batch_id,
            calls[k].event_id,
            calls[k].event_type,
            calls[k].metadata_ipfs,
            calls[k].order_status,
            calls[k].previous_event,
            calls[k].now,
            calls[k].bump,
        )
}

/// After N successful event creations on one batch, `total_events` has
/// risen by exactly N, one event record was appended per call — in call
/// order, each stamped with its call's clock — and the batch's
/// `last_updated` is the last call's clock.
pub proof fn lemma_event_count_chain(
    states: Seq<Cassegrain>,
    calls: Seq<CreateEventCall>,
    batch_id: Pubkey,
)
    requires
        create_event_chain(states, calls, batch_id),
        has_batch(states[0].batches@, batch_id),
        batch_at(states[0].batches@, batch_id).batch.total_events + calls.len() <= u32::MAX,
    ensures
        has_batch(states.last().batches@, batch_id),
        batch_at(states.last().batches@, batch_id).batch.total_events == batch_at(
            states[0].batches@,
            batch_id,
        ).batch.total_events + calls.len(),
        states.last().events@.len() == states[0].events@.len() + calls.len(),
        forall|k: int|
            0 <= k < calls.len() ==> states.last().events@[states[0].events@.len() + k].event.timestamp
                == (#[trigger] calls[k]).now,
        calls.len() > 0 ==> batch_at(states.last().batches@, batch_id).batch.last_updated
            == calls.last().now,
    decreases calls.len(),
{
    if calls.len() == 0 {
        assert(states.last() == states[0]);
    } else {
        let n = calls.len() as int;
        let states2 = states.drop_last();
        let calls2 = calls.drop_last();
        assert forall|k: int| 0 <= k < states2.len() implies (#[trigger] states2[k]).wf() by {
            assert(states2[k] == states[k]);
        }
        assert forall|k: int|
            0 <= k < calls2.len() implies create_event_ok(
                states2[k],
                states2[k + 1],
                (#[trigger] calls2[k]).signer,
                batch_id,
                calls2[k].event_id,
                calls2[k].event_type,
                calls2[k].metadata_ipfs,
                calls2[k].order_status,
                calls2[k].previous_event,
                calls2[k].now,
                calls2[k].bump,
            ) by {
            assert(calls2[k] == calls[k]);
            assert(states2[k] == states[k] && states2[k + 1] == states[k + 1]);
        }
        lemma_event_count_chain(states2, calls2, batch_id);
        let mid = states[n - 1];
        let fin = states[n];
        assert(states2.last() == mid && states.last() == fin);
        assert(calls[n - 1] == calls.last());
        lemma_create_event_step(
            mid,
            fin,
            calls.last().signer,
            batch_id,
            calls.last().event_id,
            calls.last().event_type,
            calls.last().metadata_ipfs,
            calls.last().order_status,
            calls.last().previous_event,
            calls.last().now,
            calls.last().bump,
        );
        assert forall|k: int|
            0 <= k < n implies fin.events@[states[0].events@.len() + k].event.timestamp == (
            #[trigger] calls[k]).now by {
            if k < n - 1 {
                assert(calls2[k] == calls[k]);
                assert(fin.events@[states[0].events@.len() + k] == mid.events@[states[0].events@.len()
                    + k]);
            } else {
                assert(fin.events@.last().event.timestamp == calls.last().now);
            }
        }
    }
}

/// When the clocks of a run are non-decreasing, so are the timestamps
/// of the event records it appends: later events never carry an
/// earlier time.
pub proof fn lemma_event_times_monotone(
    states: Seq<Cassegrain>,
    calls: Seq<CreateEventCall>,
    batch_id: Pubkey,
)
    requires
        create_event_chain(states, calls, batch_id),
        has_batch(states[0].batches@, batch_id),
        batch_at(states[0].batches@, batch_id).batch.total_events + calls.len() <= u32::MAX,
        forall|k1: int, k2: int|
            0 <= k1 <= k2 < calls.len() ==> (#[trigger] calls[k1]).now <= (#[trigger] calls[k2]).now,
    ensures
        forall|i1: int, i2: int|
            #![trigger states.last().events@[i1], states.last().events@[i2]]
            states[0].events@.len() <= i1 <= i2 < states.last().events@.len()
                ==> states.last().events@[i1].event.timestamp
                <= states.last().events@[i2].event.timestamp,
{
    lemma_event_count_chain(states, calls, batch_id);
    let base = states[0].events@.len() as int;
    assert forall|i1: int, i2: int|
        base <= i1 <= i2 < states.last().events@.len() implies states.last().events@[
        i1
    ].event.timestamp <= states.last().events@[i2].event.timestamp by {
        assert(states.last().events@[i1].event.timestamp == calls[i1 - base].now);
        assert(states.last().events@[i2].event.timestamp == calls[i2 - base].now);
        assert(calls[i1 - base].now <= calls[i2 - base].now);
    }
}

/// Round trip: delegating and immediately undelegating — with no
/// update in between — leaves both records exactly as they were, but
/// for `last_updated` and `timestamp`, which advance to the
/// undelegation clock; both records are resident again and the rollup
/// holds exactly what it held before.
pub proof fn lemma_delegate_undelegate_round_trip(
    pre: Cassegrain,
    mid: Cassegrain,
    post: Cassegrain,
    signer: Pubkey,
    batch_id: Pubkey,
    event_id: Pubkey,
    now: i64,
)
    requires
        pre.wf(),
        mid.wf(),
        delegate_product_outcome(pre, signer, batch_id, event_id) is None,
        delegate_product_ok(pre, mid, batch_id, event_id),
        undelegate_product_outcome(mid, signer, batch_id, event_id) is None,
        undelegate_product_ok(mid, post, signer, batch_id, event_id, now),
    ensures
        has_batch(post.batches@, batch_id),
        has_event(post.events@, event_id),
        batch_at(post.batches@, batch_id).batch == (ProductBatch {
            last_updated: now,
            ..batch_at(pre.batches@, batch_id).batch
        }),
        batch_at(post.batches@, batch_id).residency is Resident,
        event_at(post.events@, event_id).event == (ProductEvent {
            timestamp: now,
            ..event_at(pre.events@, event_id).event
        }),
        event_at(post.events@, event_id).residency is Resident,
        post.rollup@ == pre.rollup@,
{
    lemma_wf_unique(pre);
    lemma_wf_unique(mid);
    let bj = batch_idx(pre.batches@, batch_id);
    let ej = event_idx(pre.events@, event_id);
    assert(0 <= bj < pre.batches@.len() && pre.batches@[bj].batch.batch_id == batch_id);
    assert(0 <= ej < pre.events@.len() && pre.events@[ej].event.event_id == event_id);
    let nr = pre.rollup@.len() as int;
    assert(mid.rollup@[nr].batch.batch_id == batch_id && mid.rollup@[nr].event.event_id
        == event_id);
    lemma_entry_idx(mid.rollup@, batch_id, event_id, nr);
    lemma_batch_idx(mid.batches@, batch_id, bj);
    lemma_event_idx(mid.events@, event_id, ej);
    assert forall|i: int| 0 <= i < post.batches@.len() implies (#[trigger] post.batches@[
        i
    ]).batch.batch_id == mid.batches@[i].batch.batch_id by {}
    assert(unique_batches(post.batches@));
    assert(unique_events(post.events@));
    lemma_batch_idx(post.batches@, batch_id, bj);
    lemma_event_idx(post.events@, event_id, ej);
    mid.rollup@.remove_ensures(nr);
    assert(post.rollup@ =~= pre.rollup@);
}

/// Sparse patch: an update that supplies only a new order status
/// leaves the batch status, the event type, both chain links and the
/// metadata untouched; the order status changes, both clocks move to
/// `now`, and the event count still rises by one.
pub proof fn lemma_sparse_patch_order_status(
    pre: Cassegrain,
    post: Cassegrain,
    signer: Pubkey,
    batch_id: Pubkey,
    event_id: Pubkey,
    order_status: OrderStatus,
    now: i64,
)
    requires
        pre.wf(),
        has_entry(pre.rollup@, batch_id, event_id),
        entry_at(pre.rollup@, batch_id, event_id).batch.total_events < u32::MAX,
        event_log_ok(
            pre,
            post,
            signer,
            batch_id,
            event_id,
            None,
            Some(order_status),
            None,
            None,
            None,
            None,
            now,
        ),
    ensures
        has_entry(post.rollup@, batch_id, event_id),
        entry_at(post.rollup@, batch_id, event_id).event == (ProductEvent {
            order_status,
            timestamp: now,
            ..entry_at(pre.rollup@, batch_id, event_id).event
        }),
        entry_at(post.rollup@, batch_id, event_id).batch == (ProductBatch {
            last_updated: now,
            total_events: (entry_at(pre.rollup@, batch_id, event_id).batch.total_events + 1) as u32,
            ..entry_at(pre.rollup@, batch_id, event_id).batch
        }),
        entry_at(post.rollup@, batch_id, event_id).batch.status == entry_at(
            pre.rollup@,
            batch_id,
            event_id,
        ).batch.status,
{
    lemma_wf_unique(pre);
    let k0 = entry_idx(pre.rollup@, batch_id, event_id);
    assert(0 <= k0 < pre.rollup@.len() && pre.rollup@[k0].batch.batch_id == batch_id
        && pre.rollup@[k0].event.event_id == event_id);
    assert forall|k: int| 0 <= k < post.rollup@.len() implies (#[trigger] post.rollup@[
        k
    ]).batch.batch_id == pre.rollup@[k].batch.batch_id && post.rollup@[k].event.event_id
        == pre.rollup@[k].event.event_id by {
        if k != k0 {
            assert(post.rollup@[k] == pre.rollup@[k]);
        }
    }
    assert(unique_rollup(post.rollup@));
    lemma_entry_idx(post.rollup@, batch_id, event_id, k0);
}

/// Authorization: a delegation attempt by any identity other than the
/// batch's recorded manufacturer yields exactly `Unauthorized`; the
/// operation's contract then guarantees the state is left untouched.
pub proof fn lemma_unauthorized_delegate(
    pre: Cassegrain,
    signer: Pubkey,
    batch_id: Pubkey,
    event_id: Pubkey,
)
    requires
        has_batch(pre.batches@, batch_id),
        has_event(pre.events@, event_id),
        batch_at(pre.batches@, batch_id).batch.manufacturer != signer,
    ensures
        delegate_product_outcome(pre, signer, batch_id, event_id) == Some(
            CassegrainError::Unauthorized,
        ),
{
}

/// Authorization: an undelegation attempt on a delegated pair by any
/// identity other than the batch's recorded manufacturer yields
/// exactly `Unauthorized`; the operation's contract then guarantees
/// the state is left untouched.
pub proof fn lemma_unauthorized_undelegate(
    pre: Cassegrain,
    signer: Pubkey,
    batch_id: Pubkey,
    event_id: Pubkey,
)
    requires
        has_entry(pre.rollup@, batch_id, event_id),
        batch_at(pre.batches@, batch_id).batch.manufacturer != signer,
    ensures
        undelegate_product_outcome(pre, signer, batch_id, event_id) == Some(
            CassegrainError::Unauthorized,
        ),
{
}

} // verus!
