//! Configuration and manufacturer registry operations, and batch
//! registration.
//!
//! Each operation is specified by two functions: an *outcome* function
//! that gives the exact error for the inputs (or `None` when success is
//! owed), and an effect relation that pins the successor state down.
//! The executable operation returns the outcome's error, changing
//! nothing, or succeeds with exactly the described effect.

use vstd::prelude::*;

use crate::error::CassegrainError;
use crate::state::{
    byte_len, opt_text_ok, text_len, CassegrainConfig, ManufacturerProfile, ProductBatch, Pubkey,
    MAX_TEXT_BYTES,
};
use crate::status::{BusinessType, ProductCategory, ProductStatus};
use crate::system::{
    delegated_batch, delegated_event, has_batch, has_config, has_manufacturer, config_at,
    lemma_batch_idx, lemma_config_idx, lemma_manufacturer_idx, lemma_wf_unique, manufacturer_at,
    rollup_has_batch, unique_batches, unique_configs, unique_manufacturers, BatchSlot, Cassegrain,
    Residency,
};

verus! {

/// Error returned by [`Cassegrain::initialize`], or `None` when it must
/// succeed: creation fails only if the authority already has a
/// configuration record.
pub open spec fn initialize_outcome(pre: Cassegrain, authority: Pubkey) -> Option<
    CassegrainError,
> {
    if has_config(pre.configs@, authority) {
        Some(CassegrainError::ConfigAlreadyExists)
    } else {
        None
    }
}

/// Effect of a successful [`Cassegrain::initialize`]: exactly one new
/// configuration record, unpaused, with the caller as fee destination;
/// everything else untouched.
pub open spec fn initialize_ok(
    pre: Cassegrain,
    post: Cassegrain,
    authority: Pubkey,
    product_registration_fee: u64,
    max_events_per_product: u32,
    max_products_per_manufacturer: u32,
    min_event_interval: i64,
    max_batch_size: u8,
    bump: u8,
) -> bool {
    &&& post.configs@ == pre.configs@.push(
        CassegrainConfig {
            authority,
            is_paused: false,
            product_registration_fee,
            fee_treasury: authority,
            max_events_per_product,
            max_products_per_manufacturer,
            min_event_interval,
            max_batch_size,
            bump,
        },
    )
    &&& post.manufacturers@ == pre.manufacturers@
    &&& post.batches@ == pre.batches@
    &&& post.events@ == pre.events@
    &&& post.rollup@ == pre.rollup@
    &&& post.notifications@ == pre.notifications@
}

/// Error returned by [`Cassegrain::register_manufacturer`], or `None`
/// when it must succeed, checked in this order: the authority's
/// configuration must exist and not be paused, the signer must not
/// already have a profile, and both text fields must fit the bound.
pub open spec fn register_manufacturer_outcome(
    pre: Cassegrain,
    authority: Pubkey,
    signer: Pubkey,
    company_name: String,
    certifications: String,
) -> Option<CassegrainError> {
    if !has_config(pre.configs@, authority) {
        Some(CassegrainError::ConfigNotFound)
    } else if config_at(pre.configs@, authority).is_paused {
        Some(CassegrainError::ProgramPaused)
    } else if has_manufacturer(pre.manufacturers@, signer) {
        Some(CassegrainError::ManufacturerProfileExists)
    } else if byte_len(company_name) > MAX_TEXT_BYTES as nat {
        Some(CassegrainError::InvalidInput)
    } else if byte_len(certifications) > MAX_TEXT_BYTES as nat {
        Some(CassegrainError::InvalidInput)
    } else {
        None
    }
}

/// Effect of a successful [`Cassegrain::register_manufacturer`]: one new
/// profile owned by the signer, never verified at birth; everything else
/// untouched.
pub open spec fn register_manufacturer_ok(
    pre: Cassegrain,
    post: Cassegrain,
    signer: Pubkey,
    company_name: String,
    business_type: BusinessType,
    certifications: String,
    bump: u8,
) -> bool {
    &&& post.manufacturers@ == pre.manufacturers@.push(
        ManufacturerProfile {
            company_name,
            business_type,
            owner: signer,
            certifications,
            is_verified: false,
            bump,
        },
    )
    &&& post.configs@ == pre.configs@
    &&& post.batches@ == pre.batches@
    &&& post.events@ == pre.events@
    &&& post.rollup@ == pre.rollup@
    &&& post.notifications@ == pre.notifications@
}

/// Error returned by [`Cassegrain::register_product_batch`], or `None`
/// when it must succeed, checked in this order: configuration present
/// and not paused, signer's profile present and verified, batch size
/// within `[1, max_batch_size]`, metadata within the text bound.  An
/// already existing batch id is *not* an error: re-registration is a
/// silent no-op.
pub open spec fn register_product_batch_outcome(
    pre: Cassegrain,
    authority: Pubkey,
    signer: Pubkey,
    metadata_ipfs: Option<String>,
    batch_size: u8,
) -> Option<CassegrainError> {
    if !has_config(pre.configs@, authority) {
        Some(CassegrainError::ConfigNotFound)
    } else if config_at(pre.configs@, authority).is_paused {
        Some(CassegrainError::ProgramPaused)
    } else if !has_manufacturer(pre.manufacturers@, signer) {
        Some(CassegrainError::ManufacturerNotFound)
    } else if !manufacturer_at(pre.manufacturers@, signer).is_verified {
        Some(CassegrainError::ManufacturerNotVerified)
    } else if batch_size == 0 || batch_size > config_at(pre.configs@, authority).max_batch_size {
        Some(CassegrainError::InvalidBatchSize)
    } else if !opt_text_ok(metadata_ipfs) {
        Some(CassegrainError::InvalidIPFSHash)
    } else {
        None
    }
}

/// The batch record a successful first registration stores.
pub open spec fn fresh_batch(
    pre: Cassegrain,
    signer: Pubkey,
    batch_id: Pubkey,
    metadata_ipfs: Option<String>,
    category: ProductCategory,
    batch_size: u8,
    now: i64,
    bump: u8,
) -> ProductBatch {
    ProductBatch {
        batch_id,
        manufacturer_name: manufacturer_at(pre.manufacturers@, signer).company_name,
        status: ProductStatus::Created,
        created_at: now,
        last_updated: now,
        metadata_ipfs,
        authenticity_verified: false,
        category,
        manufacturer: signer,
        event_account: None,
        total_events: 0,
        batch_size,
        bump,
    }
}

/// Effect of a successful [`Cassegrain::register_product_batch`]: if the
/// batch id is new, exactly one resident batch record appears, with the
/// signer as manufacturer and a snapshot of the signer's company name;
/// if the id already exists, nothing changes at all.
pub open spec fn register_product_batch_ok(
    pre: Cassegrain,
    post: Cassegrain,
    authority: Pubkey,
    signer: Pubkey,
    batch_id: Pubkey,
    metadata_ipfs: Option<String>,
    category: ProductCategory,
    batch_size: u8,
    now: i64,
    bump: u8,
) -> bool {
    &&& post.batches@ == if has_batch(pre.batches@, batch_id) {
        pre.batches@
    } else {
        pre.batches@.push(
            BatchSlot {
                batch: fresh_batch(
                    pre,
                    signer,
                    batch_id,
                    metadata_ipfs,
                    category,
                    batch_size,
                    now,
                    bump,
                ),
                residency: Residency::Resident,
            },
        )
    }
    &&& post.configs@ == pre.configs@
    &&& post.manufacturers@ == pre.manufacturers@
    &&& post.events@ == pre.events@
    &&& post.rollup@ == pre.rollup@
    &&& post.notifications@ == pre.notifications@
}

/// Appending a fresh, well-formed configuration record keeps the system
/// well-formed.
proof fn lemma_push_config(pre: Cassegrain, post: Cassegrain, cfg: CassegrainConfig)
    requires
        pre.wf(),
        !has_config(pre.configs@, cfg.authority),
        post.configs@ == pre.configs@.push(cfg),
        post.manufacturers@ == pre.manufacturers@,
        post.batches@ == pre.batches@,
        post.events@ == pre.events@,
        post.rollup@ == pre.rollup@,
    ensures
        post.wf(),
{
    reveal(Cassegrain::wf);
    let old_c = pre.configs@;
    assert forall|i: int| 0 <= i < old_c.len() implies (#[trigger] old_c[i]).authority
        != cfg.authority by {
        if old_c[i].authority == cfg.authority {
            assert(has_config(old_c, cfg.authority));
        }
    }
    assert(unique_configs(post.configs@));
}

/// Appending a fresh, well-formed manufacturer profile keeps the system
/// well-formed.
proof fn lemma_push_manufacturer(pre: Cassegrain, post: Cassegrain, p: ManufacturerProfile)
    requires
        pre.wf(),
        !has_manufacturer(pre.manufacturers@, p.owner),
        p.wf(),
        post.manufacturers@ == pre.manufacturers@.push(p),
        post.configs@ == pre.configs@,
        post.batches@ == pre.batches@,
        post.events@ == pre.events@,
        post.rollup@ == pre.rollup@,
    ensures
        post.wf(),
{
    reveal(Cassegrain::wf);
    let old_m = pre.manufacturers@;
    assert forall|i: int| 0 <= i < old_m.len() implies (#[trigger] old_m[i]).owner != p.owner by {
        if old_m[i].owner == p.owner {
            assert(has_manufacturer(old_m, p.owner));
        }
    }
    assert(unique_manufacturers(post.manufacturers@));
}

/// Appending a well-formed resident batch under a fresh id keeps the
/// system well-formed: no key is duplicated, and a resident slot needs
/// no rollup entry.
proof fn lemma_push_resident_batch(pre: Cassegrain, post: Cassegrain, slot: BatchSlot)
    requires
        pre.wf(),
        !has_batch(pre.batches@, slot.batch.batch_id),
        slot.batch.wf(),
        slot.residency is Resident,
        post.batches@ == pre.batches@.push(slot),
        post.configs@ == pre.configs@,
        post.manufacturers@ == pre.manufacturers@,
        post.events@ == pre.events@,
        post.rollup@ == pre.rollup@,
    ensures
        post.wf(),
{
    reveal(Cassegrain::wf);
    let old_b = pre.batches@;
    let new_b = post.batches@;
    let n = old_b.len() as int;
    assert forall|i: int| 0 <= i < n implies (#[trigger] old_b[i]).batch.batch_id
        != slot.batch.batch_id by {
        if old_b[i].batch.batch_id == slot.batch.batch_id {
            assert(has_batch(old_b, slot.batch.batch_id));
        }
    }
    assert(unique_batches(new_b));
    assert forall|k: int| 0 <= k < post.rollup@.len() implies delegated_batch(
        new_b,
        (#[trigger] post.rollup@[k]).batch.batch_id,
    ) && delegated_event(post.events@, post.rollup@[k].event.event_id) by {
        let en = post.rollup@[k];
        let j = choose|j: int|
            0 <= j < old_b.len() && (#[trigger] old_b[j]).batch.batch_id == en.batch.batch_id
                && old_b[j].residency is Delegated;
        assert(new_b[j] == old_b[j]);
    }
    assert forall|i: int|
        0 <= i < new_b.len() && (#[trigger] new_b[i]).residency is Delegated implies
        rollup_has_batch(post.rollup@, new_b[i].batch.batch_id) by {
        assert(new_b[i] == if i < n {
            old_b[i]
        } else {
            slot
        });
    }
}

impl Cassegrain {
    /// Creates the one configuration record for `authority`.  Fails only
    /// if one already exists; nothing else is touched either way.
    pub fn initialize(
        &mut self,
        authority: Pubkey,
        product_registration_fee: u64,
        max_events_per_product: u32,
        max_products_per_manufacturer: u32,
        min_event_interval: i64,
        max_batch_size: u8,
        bump: u8,
    ) -> (r: Result<(), CassegrainError>)
        requires
            old(self).wf(),
        ensures
            final(self).wf(),
            match initialize_outcome(*old(self), authority) {
                Some(e) => r == Err::<(), CassegrainError>(e) && *final(self) == *old(self),
                None => r is Ok && initialize_ok(
                    *old(self),
                    *final(self),
                    authority,
                    product_registration_fee,
                    max_events_per_product,
                    max_products_per_manufacturer,
                    min_event_interval,
                    max_batch_size,
                    bump,
                ),
            },
    {
        proof {
            lemma_wf_unique(*self);
        }
        match self.find_config(authority) {
            Some(i) => {
                proof {
                    lemma_config_idx(self.configs@, authority, i as int);
                }
                Err(CassegrainError::ConfigAlreadyExists)
            },
            None => {
                self.configs.push(
                    CassegrainConfig {
                        authority,
                        is_paused: false,
                        product_registration_fee,
                        fee_treasury: authority,
                        max_events_per_product,
                        max_products_per_manufacturer,
                        min_event_interval,
                        max_batch_size,
                        bump,
                    },
                );
                proof {
                    lemma_push_config(*old(self), *self, self.configs@.last());
                }
                Ok(())
            },
        }
    }

    /// Creates the signer's manufacturer profile.  The profile is born
    /// unverified; verification is an out-of-scope administrative step.
    pub fn register_manufacturer(
        &mut self,
        authority: Pubkey,
        signer: Pubkey,
        company_name: String,
        business_type: BusinessType,
        certifications: String,
        bump: u8,
    ) -> (r: Result<(), CassegrainError>)
        requires
            old(self).wf(),
        ensures
            final(self).wf(),
            match register_manufacturer_outcome(
                *old(self),
                authority,
                signer,
                company_name,
                certifications,
            ) {
                Some(e) => r == Err::<(), CassegrainError>(e) && *final(self) == *old(self),
                None => r is Ok && register_manufacturer_ok(
                    *old(self),
                    *final(self),
                    signer,
                    company_name,
                    business_type,
                    certifications,
                    bump,
                ),
            },
    {
        proof {
            lemma_wf_unique(*self);
        }
        let cfg_i = match self.find_config(authority) {
            Some(i) => i,
            None => {
                return Err(CassegrainError::ConfigNotFound);
            },
        };
        proof {
            lemma_config_idx(self.configs@, authority, cfg_i as int);
        }
        if self.configs[cfg_i].is_paused {
            return Err(CassegrainError::ProgramPaused);
        }
        match self.find_manufacturer(signer) {
            Some(i) => {
                proof {
                    lemma_manufacturer_idx(self.manufacturers@, signer, i as int);
                }
                return Err(CassegrainError::ManufacturerProfileExists);
            },
            None => {},
        }
        if text_len(&company_name) > MAX_TEXT_BYTES {
            return Err(CassegrainError::InvalidInput);
        }
        if text_len(&certifications) > MAX_TEXT_BYTES {
            return Err(CassegrainError::InvalidInput);
        }
        self.manufacturers.push(
            ManufacturerProfile {
                company_name,
                business_type,
                owner: signer,
                certifications,
                is_verified: false,
                bump,
            },
        );
        proof {
            lemma_push_manufacturer(*old(self), *self, self.manufacturers@.last());
        }
        Ok(())
    }

    /// Registers a batch under a caller-chosen id.  Registration is
    /// idempotent on the id: re-invoking it for an existing batch is a
    /// silent no-op, a deliberate tolerance for retried submissions.
    pub fn register_product_batch(
        &mut self,
        authority: Pubkey,
        signer: Pubkey,
        batch_id: Pubkey,
        metadata_ipfs: Option<String>,
        category: ProductCategory,
        batch_size: u8,
        now: i64,
        bump: u8,
    ) -> (r: Result<(), CassegrainError>)
        requires
            old(self).wf(),
            0 <= now,
        ensures
            final(self).wf(),
            match register_product_batch_outcome(
                *old(self),
                authority,
                signer,
                metadata_ipfs,
                batch_size,
            ) {
                Some(e) => r == Err::<(), CassegrainError>(e) && *final(self) == *old(self),
                None => r is Ok && register_product_batch_ok(
                    *old(self),
                    *final(self),
                    authority,
                    signer,
                    batch_id,
                    metadata_ipfs,
                    category,
                    batch_size,
                    now,
                    bump,
                ),
            },
    {
        proof {
            lemma_wf_unique(*self);
        }
        let cfg_i = match self.find_config(authority) {
            Some(i) => i,
            None => {
                return Err(CassegrainError::ConfigNotFound);
            },
        };
        proof {
            lemma_config_idx(self.configs@, authority, cfg_i as int);
        }
        if self.configs[cfg_i].is_paused {
            return Err(CassegrainError::ProgramPaused);
        }
        let man_i = match self.find_manufacturer(signer) {
            Some(i) => i,
            None => {
                return Err(CassegrainError::ManufacturerNotFound);
            },
        };
        proof {
            lemma_manufacturer_idx(self.manufacturers@, signer, man_i as int);
        }
        if !self.manufacturers[man_i].is_verified {
            return Err(CassegrainError::ManufacturerNotVerified);
        }
        if batch_size == 0 || batch_size > self.configs[cfg_i].max_batch_size {
            return Err(CassegrainError::InvalidBatchSize);
        }
        match &metadata_ipfs {
            Some(m) => {
                if text_len(m) > MAX_TEXT_BYTES {
                    return Err(CassegrainError::InvalidIPFSHash);
                }
            },
            None => {},
        }
        match self.find_batch(batch_id) {
            Some(i) => {
                proof {
                    lemma_batch_idx(self.batches@, batch_id, i as int);
                }
                Ok(())
            },
            None => {
                let name = self.manufacturers[man_i].company_name.clone();
                self.batches.push(
                    BatchSlot {
                        batch: ProductBatch {
                            batch_id,
                            manufacturer_name: name,
                            status: ProductStatus::Created,
                            created_at: now,
                            last_updated: now,
                            metadata_ipfs,
                            authenticity_verified: false,
                            category,
                            manufacturer: signer,
                            event_account: None,
                            total_events: 0,
                            batch_size,
                            bump,
                        },
                        residency: Residency::Resident,
                    },
                );
                proof {
                    lemma_push_resident_batch(
                        *old(self),
                        *self,
                        self.batches@.last(),
                    );
                }
                Ok(())
            },
        }
    }
}

} // verus!
