//! Saved migration policies: a (bucket, mask, target tier) rule the operator
//! can reuse. The store is an append log mirrored in memory; the durable
//! write itself is the persistence collaborator's job.

use vstd::prelude::*;

use crate::mask::ObjectMask;
use crate::models::StorageClassTier;

verus! {

/// A persisted (bucket, mask, target tier) migration rule.
pub struct MigrationPolicy {
    pub bucket: String,
    pub mask: ObjectMask,
    pub target_storage_class: StorageClassTier,
    pub scheduled: bool,
    pub schedule: Option<String>,
}

impl MigrationPolicy {
    pub fn new(
        bucket: String,
        mask: ObjectMask,
        target_storage_class: StorageClassTier,
        scheduled: bool,
        schedule: Option<String>,
    ) -> (r: Self)
        ensures
            r == (MigrationPolicy { bucket, mask, target_storage_class, scheduled, schedule }),
    {
        MigrationPolicy { bucket, mask, target_storage_class, scheduled, schedule }
    }
}

impl Clone for MigrationPolicy {
    fn clone(&self) -> (r: Self)
        ensures
            r == *self,
    {
        MigrationPolicy {
            bucket: self.bucket.clone(),
            mask: self.mask.clone(),
            target_storage_class: self.target_storage_class,
            scheduled: self.scheduled,
            schedule: match &self.schedule {
                Some(s) => Some(s.clone()),
                None => None,
            },
        }
    }
}

/// Copies a policy list element by element.
pub fn clone_policies(v: &Vec<MigrationPolicy>) -> (r: Vec<MigrationPolicy>)
    ensures
        r@ == v@,
{
    let mut r: Vec<MigrationPolicy> = Vec::new();
    let mut i: usize = 0;
    while i < v.len()
        invariant
            i <= v@.len(),
            r@ == v@.subrange(0, i as int),
        decreases v@.len() - i,
    {
        r.push(v[i].clone());
        proof {
            assert(v@.subrange(0, i + 1 as int) =~= v@.subrange(0, i as int).push(v@[i as int]));
        }
        i = i + 1;
    }
    proof {
        assert(v@.subrange(0, v@.len() as int) =~= v@);
    }
    r
}

/// The in-memory mirror of the durable policy log. Records are only ever
/// appended; duplicates are permitted by design.
pub struct PolicyStore {
    pub policies: Vec<MigrationPolicy>,
}

impl PolicyStore {
    /// A store mirroring the records the persistence collaborator loaded at
    /// startup.
    pub fn with_policies(policies: Vec<MigrationPolicy>) -> (r: Self)
        ensures
            r.policies == policies,
    {
        PolicyStore { policies }
    }

    /// Appends one record to the mirror. The caller hands the same record to
    /// the durable log.
    pub fn add(&mut self, policy: MigrationPolicy)
        ensures
            final(self).policies@ == old(self).policies@.push(policy),
    {
        self.policies.push(policy);
    }
}

} // verus!
