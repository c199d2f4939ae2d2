//! Bookkeeping that travels with every pooled resource.

use vstd::prelude::*;

verus! {

/// What the pool records about one resource.
#[derive(Clone, Copy, Debug, PartialEq, Eq, Structural)]
pub struct Metrics {
    /// The identity that the pool gave the resource when it was constructed.
    pub id: usize,
    /// The reading of the caller's clock at construction.
    pub created_at: u64,
    /// How often the resource passed validation and was handed out again.
    pub recycle_count: usize,
}

impl Metrics {
    /// The metrics of a resource that has just been constructed.
    pub open spec fn fresh(id: usize, now: u64) -> Metrics {
        Metrics { id, created_at: now, recycle_count: 0 }
    }

    /// The metrics after one more successful validation. The count stops at
    /// the largest value that it can hold.
    pub open spec fn spec_recycled(self) -> Metrics {
        Metrics {
            id: self.id,
            created_at: self.created_at,
            recycle_count: if self.recycle_count < usize::MAX {
                (self.recycle_count + 1) as usize
            } else {
                self.recycle_count
            },
        }
    }

    /// Counts one more successful validation.
    #[verifier::when_used_as_spec(spec_recycled)]
    pub fn recycled(self) -> (next: Metrics)
        ensures
            next == self.spec_recycled(),
    {
        let recycle_count: usize = if self.recycle_count < usize::MAX {
            self.recycle_count + 1
        } else {
            self.recycle_count
        };
        Metrics { id: self.id, created_at: self.created_at, recycle_count }
    }
}

/// A resource together with its metrics: what sits in the idle collection
/// and what a loan carries.
#[derive(Debug)]
pub struct ObjectInner<T> {
    /// The pooled resource itself.
    pub obj: T,
    /// The pool's record of it.
    pub metrics: Metrics,
}

} // verus!
