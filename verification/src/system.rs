//! The system state: durable store, rollup venue and notification stream.
//!
//! The durable store keeps every record beside a residency tag; the
//! rollup venue holds a local copy of each currently delegated
//! batch/event pair.  Exactly one venue accepts mutations for a given
//! record at any time: a record is writable on the durable side iff its
//! tag is `Resident`, and writable on the rollup side iff a rollup entry
//! carries its id.  [`Cassegrain::wf`] states that correspondence.

use vstd::prelude::*;

use crate::notify::Notification;
use crate::state::{CassegrainConfig, ManufacturerProfile, ProductBatch, ProductEvent, Pubkey};

verus! {

/// Which venue currently owns writes to a durable record.
#[derive(Clone, Copy, Debug, PartialEq, Eq, Structural)]
pub enum Residency {
    /// The record lives only in durable storage and is mutable there.
    Resident,
    /// Write control was handed to the rollup venue; the durable copy is
    /// read-only until undelegation.
    Delegated,
}

/// A batch record beside its residency tag.
#[derive(Debug, Clone, PartialEq, Eq)]
pub struct BatchSlot {
    pub batch: ProductBatch,
    pub residency: Residency,
}

/// An event record beside its residency tag.
#[derive(Debug, Clone, PartialEq, Eq)]
pub struct EventSlot {
    pub event: ProductEvent,
    pub residency: Residency,
}

/// The rollup venue's local copy of one delegated batch/event pair.
#[derive(Debug, Clone, PartialEq, Eq)]
pub struct RollupEntry {
    pub batch: ProductBatch,
    pub event: ProductEvent,
}

/// The whole system: durable keyed storage, the rollup venue's local
/// copies, and the append-only notification stream.
pub struct Cassegrain {
    /// Configuration records, keyed by issuing authority.
    pub configs: Vec<CassegrainConfig>,
    /// Manufacturer profiles, keyed by owner identity.
    pub manufacturers: Vec<ManufacturerProfile>,
    /// Batch records, keyed by batch id.
    pub batches: Vec<BatchSlot>,
    /// Event records, keyed by event id.
    pub events: Vec<EventSlot>,
    /// The rollup venue's entries, one per delegated pair.
    pub rollup: Vec<RollupEntry>,
    /// Everything emitted so far, oldest first.
    pub notifications: Vec<Notification>,
}

// Keyed lookups over the stores, at the specification level.  Each store
// is keyed by one field; under the uniqueness clauses of
// [`Cassegrain::wf`] the chosen index is the only match.

pub open spec fn has_config(s: Seq<CassegrainConfig>, authority: Pubkey) -> bool {
    exists|i: int| 0 <= i < s.len() && s[i].authority == authority
}

pub open spec fn config_idx(s: Seq<CassegrainConfig>, authority: Pubkey) -> int {
    choose|i: int| 0 <= i < s.len() && s[i].authority == authority
}

pub open spec fn config_at(s: Seq<CassegrainConfig>, authority: Pubkey) -> CassegrainConfig {
    s[config_idx(s, authority)]
}

pub open spec fn has_manufacturer(s: Seq<ManufacturerProfile>, owner: Pubkey) -> bool {
    exists|i: int| 0 <= i < s.len() && s[i].owner == owner
}

pub open spec fn manufacturer_idx(s: Seq<ManufacturerProfile>, owner: Pubkey) -> int {
    choose|i: int| 0 <= i < s.len() && s[i].owner == owner
}

pub open spec fn manufacturer_at(s: Seq<ManufacturerProfile>, owner: Pubkey) -> ManufacturerProfile {
    s[manufacturer_idx(s, owner)]
}

pub open spec fn has_batch(s: Seq<BatchSlot>, batch_id: Pubkey) -> bool {
    exists|i: int| 0 <= i < s.len() && s[i].batch.batch_id == batch_id
}

pub open spec fn batch_idx(s: Seq<BatchSlot>, batch_id: Pubkey) -> int {
    choose|i: int| 0 <= i < s.len() && s[i].batch.batch_id == batch_id
}

pub open spec fn batch_at(s: Seq<BatchSlot>, batch_id: Pubkey) -> BatchSlot {
    s[batch_idx(s, batch_id)]
}

pub open spec fn has_event(s: Seq<EventSlot>, event_id: Pubkey) -> bool {
    exists|i: int| 0 <= i < s.len() && s[i].event.event_id == event_id
}

pub open spec fn event_idx(s: Seq<EventSlot>, event_id: Pubkey) -> int {
    choose|i: int| 0 <= i < s.len() && s[i].event.event_id == event_id
}

pub open spec fn event_at(s: Seq<EventSlot>, event_id: Pubkey) -> EventSlot {
    s[event_idx(s, event_id)]
}

pub open spec fn has_entry(s: Seq<RollupEntry>, batch_id: Pubkey, event_id: Pubkey) -> bool {
    exists|i: int|
        0 <= i < s.len() && s[i].batch.batch_id == batch_id && s[i].event.event_id == event_id
}

pub open spec fn entry_idx(s: Seq<RollupEntry>, batch_id: Pubkey, event_id: Pubkey) -> int {
    choose|i: int|
        0 <= i < s.len() && s[i].batch.batch_id == batch_id && s[i].event.event_id == event_id
}

pub open spec fn entry_at(s: Seq<RollupEntry>, batch_id: Pubkey, event_id: Pubkey) -> RollupEntry {
    s[entry_idx(s, batch_id, event_id)]
}

/// Some rollup entry carries this batch id.
pub open spec fn rollup_has_batch(s: Seq<RollupEntry>, batch_id: Pubkey) -> bool {
    exists|i: int| 0 <= i < s.len() && s[i].batch.batch_id == batch_id
}

/// Some rollup entry carries this event id.
pub open spec fn rollup_has_event(s: Seq<RollupEntry>, event_id: Pubkey) -> bool {
    exists|i: int| 0 <= i < s.len() && s[i].event.event_id == event_id
}

/// Some durable batch slot carries this id and is tagged `Delegated`.
pub open spec fn delegated_batch(s: Seq<BatchSlot>, batch_id: Pubkey) -> bool {
    exists|j: int|
        0 <= j < s.len() && (#[trigger] s[j]).batch.batch_id == batch_id
            && s[j].residency is Delegated
}

/// Some durable event slot carries this id and is tagged `Delegated`.
pub open spec fn delegated_event(s: Seq<EventSlot>, event_id: Pubkey) -> bool {
    exists|j: int|
        0 <= j < s.len() && (#[trigger] s[j]).event.event_id == event_id
            && s[j].residency is Delegated
}

// Key uniqueness per store.

pub open spec fn unique_configs(s: Seq<CassegrainConfig>) -> bool {
    forall|i: int, j: int|
        0 <= i < j < s.len() ==> (#[trigger] s[i]).authority != (#[trigger] s[j]).authority
}

pub open spec fn unique_manufacturers(s: Seq<ManufacturerProfile>) -> bool {
    forall|i: int, j: int| 0 <= i < j < s.len() ==> (#[trigger] s[i]).owner != (#[trigger] s[j]).owner
}

pub open spec fn unique_batches(s: Seq<BatchSlot>) -> bool {
    forall|i: int, j: int|
        0 <= i < j < s.len() ==> (#[trigger] s[i]).batch.batch_id != (#[trigger] s[j]).batch.batch_id
}

pub open spec fn unique_events(s: Seq<EventSlot>) -> bool {
    forall|i: int, j: int|
        0 <= i < j < s.len() ==> (#[trigger] s[i]).event.event_id != (#[trigger] s[j]).event.event_id
}

pub open spec fn unique_rollup(s: Seq<RollupEntry>) -> bool {
    forall|i: int, j: int|
        0 <= i < j < s.len() ==> (#[trigger] s[i]).batch.batch_id != (#[trigger] s[j]).batch.batch_id
            && s[i].event.event_id != s[j].event.event_id
}

impl Cassegrain {
    /// Well-formedness: keys are unique in every store, stored records
    /// satisfy their own invariants, and the delegation tags of the
    /// durable store agree exactly with the rollup venue's entries, so
    /// that one venue at a time accepts mutations for a given record.
    #[verifier::opaque]
    pub open spec fn wf(self) -> bool {
        &&& unique_configs(self.configs@)
        &&& unique_manufacturers(self.manufacturers@)
        &&& unique_batches(self.batches@)
        &&& unique_events(self.events@)
        &&& unique_rollup(self.rollup@)
        &&& forall|i: int|
            0 <= i < self.manufacturers@.len() ==> (#[trigger] self.manufacturers@[i]).wf()
        &&& forall|i: int| 0 <= i < self.batches@.len() ==> (#[trigger] self.batches@[i]).batch.wf()
        &&& forall|i: int| 0 <= i < self.events@.len() ==> (#[trigger] self.events@[i]).event.wf()
        &&& forall|i: int|
            0 <= i < self.rollup@.len() ==> (#[trigger] self.rollup@[i]).batch.wf()
                && self.rollup@[i].event.wf()
        &&& forall|i: int|
            0 <= i < self.rollup@.len() ==> delegated_batch(
                self.batches@,
                (#[trigger] self.rollup@[i]).batch.batch_id,
            ) && delegated_event(self.events@, self.rollup@[i].event.event_id)
        &&& forall|i: int|
            0 <= i < self.batches@.len() && (#[trigger] self.batches@[i]).residency is Delegated
                ==> rollup_has_batch(self.rollup@, self.batches@[i].batch.batch_id)
        &&& forall|i: int|
            0 <= i < self.events@.len() && (#[trigger] self.events@[i]).residency is Delegated
                ==> rollup_has_event(self.rollup@, self.events@[i].event.event_id)
    }

    /// A fresh system: nothing stored, nothing delegated, nothing
    /// emitted.
    pub fn new() -> (r: Cassegrain)
        ensures
            r.wf(),
            r.configs@ == Seq::<CassegrainConfig>::empty(),
            r.manufacturers@ == Seq::<ManufacturerProfile>::empty(),
            r.batches@ == Seq::<BatchSlot>::empty(),
            r.events@ == Seq::<EventSlot>::empty(),
            r.rollup@ == Seq::<RollupEntry>::empty(),
            r.notifications@ == Seq::<Notification>::empty(),
    {
        let r = Cassegrain {
            configs: Vec::new(),
            manufacturers: Vec::new(),
            batches: Vec::new(),
            events: Vec::new(),
            rollup: Vec::new(),
            notifications: Vec::new(),
        };
        proof {
            reveal(Cassegrain::wf);
            assert(r.wf());
        }
        r
    }

    /// Index of the configuration record for `authority`, if any.
    pub fn find_config(&self, authority: Pubkey) -> (r: Option<usize>)
        ensures
            match r {
                Some(i) => i < self.configs@.len() && self.configs@[i as int].authority == authority,
                None => !has_config(self.configs@, authority),
            },
    {
        let mut i: usize = 0;
        while i < self.configs.len()
            invariant
                i <= self.configs@.len(),
                forall|k: int| 0 <= k < i ==> (#[trigger] self.configs@[k]).authority != authority,
            decreases self.configs@.len() - i,
        {
            if self.configs[i].authority == authority {
                return Some(i);
            }
            i = i + 1;
        }
        None
    }

    /// Index of the profile owned by `owner`, if any.
    pub fn find_manufacturer(&self, owner: Pubkey) -> (r: Option<usize>)
        ensures
            match r {
                Some(i) => i < self.manufacturers@.len() && self.manufacturers@[i as int].owner
                    == owner,
                None => !has_manufacturer(self.manufacturers@, owner),
            },
    {
        let mut i: usize = 0;
        while i < self.manufacturers.len()
            invariant
                i <= self.manufacturers@.len(),
                forall|k: int| 0 <= k < i ==> (#[trigger] self.manufacturers@[k]).owner != owner,
            decreases self.manufacturers@.len() - i,
        {
            if self.manufacturers[i].owner == owner {
                return Some(i);
            }
            i = i + 1;
        }
        None
    }

    /// Index of the batch slot keyed by `batch_id`, if any.
    pub fn find_batch(&self, batch_id: Pubkey) -> (r: Option<usize>)
        ensures
            match r {
                Some(i) => i < self.batches@.len() && self.batches@[i as int].batch.batch_id
                    == batch_id,
                None => !has_batch(self.batches@, batch_id),
            },
    {
        let mut i: usize = 0;
        while i < self.batches.len()
            invariant
                i <= self.batches@.len(),
                forall|k: int|
                    0 <= k < i ==> (#[trigger] self.batches@[k]).batch.batch_id != batch_id,
            decreases self.batches@.len() - i,
        {
            if self.batches[i].batch.batch_id == batch_id {
                return Some(i);
            }
            i = i + 1;
        }
        None
    }

    /// Index of the event slot keyed by `event_id`, if any.
    pub fn find_event(&self, event_id: Pubkey) -> (r: Option<usize>)
        ensures
            match r {
                Some(i) => i < self.events@.len() && self.events@[i as int].event.event_id
                    == event_id,
                None => !has_event(self.events@, event_id),
            },
    {
        let mut i: usize = 0;
        while i < self.events.len()
            invariant
                i <= self.events@.len(),
                forall|k: int|
                    0 <= k < i ==> (#[trigger] self.events@[k]).event.event_id != event_id,
            decreases self.events@.len() - i,
        {
            if self.events[i].event.event_id == event_id {
                return Some(i);
            }
            i = i + 1;
        }
        None
    }

    /// Index of the rollup entry for the pair, if any.
    pub fn find_entry(&self, batch_id: Pubkey, event_id: Pubkey) -> (r: Option<usize>)
        ensures
            match r {
                Some(i) => i < self.rollup@.len() && self.rollup@[i as int].batch.batch_id
                    == batch_id && self.rollup@[i as int].event.event_id == event_id,
                None => !has_entry(self.rollup@, batch_id, event_id),
            },
    {
        let mut i: usize = 0;
        while i < self.rollup.len()
            invariant
                i <= self.rollup@.len(),
                forall|k: int|
                    0 <= k < i ==> !((#[trigger] self.rollup@[k]).batch.batch_id == batch_id
                        && self.rollup@[k].event.event_id == event_id),
            decreases self.rollup@.len() - i,
        {
            if self.rollup[i].batch.batch_id == batch_id && self.rollup[i].event.event_id
                == event_id {
                return Some(i);
            }
            i = i + 1;
        }
        None
    }
}

/// The facts of [`Cassegrain::wf`] that operations use directly: key
/// uniqueness per store and the per-record invariants.
pub proof fn lemma_wf_unique(sys: Cassegrain)
    requires
        sys.wf(),
    ensures
        unique_configs(sys.configs@),
        unique_manufacturers(sys.manufacturers@),
        unique_batches(sys.batches@),
        unique_events(sys.events@),
        unique_rollup(sys.rollup@),
        forall|i: int| 0 <= i < sys.manufacturers@.len() ==> (#[trigger] sys.manufacturers@[i]).wf(),
        forall|i: int| 0 <= i < sys.batches@.len() ==> (#[trigger] sys.batches@[i]).batch.wf(),
        forall|i: int| 0 <= i < sys.events@.len() ==> (#[trigger] sys.events@[i]).event.wf(),
        forall|i: int|
            0 <= i < sys.rollup@.len() ==> (#[trigger] sys.rollup@[i]).batch.wf()
                && sys.rollup@[i].event.wf(),
{
    reveal(Cassegrain::wf);
}

/// Every rollup entry points at records that exist durably and are
/// tagged `Delegated`.
pub proof fn lemma_entry_linked(sys: Cassegrain, k: int)
    requires
        sys.wf(),
        0 <= k < sys.rollup@.len(),
    ensures
        delegated_batch(sys.batches@, sys.rollup@[k].batch.batch_id),
        delegated_event(sys.events@, sys.rollup@[k].event.event_id),
        has_batch(sys.batches@, sys.rollup@[k].batch.batch_id),
        has_event(sys.events@, sys.rollup@[k].event.event_id),
{
    reveal(Cassegrain::wf);
    let j = choose|j: int|
        0 <= j < sys.batches@.len() && (#[trigger] sys.batches@[j]).batch.batch_id
            == sys.rollup@[k].batch.batch_id && sys.batches@[j].residency is Delegated;
    assert(sys.batches@[j].batch.batch_id == sys.rollup@[k].batch.batch_id);
    let j2 = choose|j2: int|
        0 <= j2 < sys.events@.len() && (#[trigger] sys.events@[j2]).event.event_id
            == sys.rollup@[k].event.event_id && sys.events@[j2].residency is Delegated;
    assert(sys.events@[j2].event.event_id == sys.rollup@[k].event.event_id);
}

// Under uniqueness, a matching index is the chosen index.

pub proof fn lemma_config_idx(s: Seq<CassegrainConfig>, authority: Pubkey, i: int)
    requires
        unique_configs(s),
        0 <= i < s.len(),
        s[i].authority == authority,
    ensures
        has_config(s, authority),
        config_idx(s, authority) == i,
        config_at(s, authority) == s[i],
{
    assert(has_config(s, authority));
    let j = config_idx(s, authority);
    if i < j {
        assert(s[i].authority != s[j].authority);
    } else if j < i {
        assert(s[j].authority != s[i].authority);
    }
}

pub proof fn lemma_manufacturer_idx(s: Seq<ManufacturerProfile>, owner: Pubkey, i: int)
    requires
        unique_manufacturers(s),
        0 <= i < s.len(),
        s[i].owner == owner,
    ensures
        has_manufacturer(s, owner),
        manufacturer_idx(s, owner) == i,
        manufacturer_at(s, owner) == s[i],
{
    assert(has_manufacturer(s, owner));
    let j = manufacturer_idx(s, owner);
    if i < j {
        assert(s[i].owner != s[j].owner);
    } else if j < i {
        assert(s[j].owner != s[i].owner);
    }
}

pub proof fn lemma_batch_idx(s: Seq<BatchSlot>, batch_id: Pubkey, i: int)
    requires
        unique_batches(s),
        0 <= i < s.len(),
        s[i].batch.batch_id == batch_id,
    ensures
        has_batch(s, batch_id),
        batch_idx(s, batch_id) == i,
        batch_at(s, batch_id) == s[i],
{
    assert(has_batch(s, batch_id));
    let j = batch_idx(s, batch_id);
    if i < j {
        assert(s[i].batch.batch_id != s[j].batch.batch_id);
    } else if j < i {
        assert(s[j].batch.batch_id != s[i].batch.batch_id);
    }
}

pub proof fn lemma_event_idx(s: Seq<EventSlot>, event_id: Pubkey, i: int)
    requires
        unique_events(s),
        0 <= i < s.len(),
        s[i].event.event_id == event_id,
    ensures
        has_event(s, event_id),
        event_idx(s, event_id) == i,
        event_at(s, event_id) == s[i],
{
    assert(has_event(s, event_id));
    let j = event_idx(s, event_id);
    if i < j {
        assert(s[i].event.event_id != s[j].event.event_id);
    } else if j < i {
        assert(s[j].event.event_id != s[i].event.event_id);
    }
}

pub proof fn lemma_entry_idx(s: Seq<RollupEntry>, batch_id: Pubkey, event_id: Pubkey, i: int)
    requires
        unique_rollup(s),
        0 <= i < s.len(),
        s[i].batch.batch_id == batch_id,
        s[i].event.event_id == event_id,
    ensures
        has_entry(s, batch_id, event_id),
        entry_idx(s, batch_id, event_id) == i,
        entry_at(s, batch_id, event_id) == s[i],
{
    assert(has_entry(s, batch_id, event_id));
    let j = entry_idx(s, batch_id, event_id);
    if i < j {
        assert(s[i].batch.batch_id != s[j].batch.batch_id);
    } else if j < i {
        assert(s[j].batch.batch_id != s[i].batch.batch_id);
    }
}

} // verus!
