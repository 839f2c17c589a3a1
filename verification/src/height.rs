//! Heights: a revision number (epoch / fork lineage) paired with a block
//! index within that revision. Heights from different revisions must never
//! be compared directly; operations that receive two revisions reject a
//! mismatch instead.

use vstd::prelude::*;

verus! {

/// A chain height: `(revision_number, revision_height)`.
#[derive(Debug, Clone, Copy, PartialEq, Eq, Structural)]
pub struct Height {
    pub revision_number: u64,
    pub revision_height: u64,
}

impl Height {
    pub fn new(revision_number: u64, revision_height: u64) -> (r: Height)
        ensures
            r.revision_number == revision_number,
            r.revision_height == revision_height,
    {
        Height { revision_number, revision_height }
    }
}

} // verus!

