//! Chain identifiers: a raw identifier (the chain's name as bytes) together
//! with the revision number the identifier carries. Every entity that holds
//! a chain id must agree with the adapter's configured revision.

use vstd::prelude::*;
use crate::wire::clone_bytes;

verus! {

/// A chain identifier: the identifier bytes and the revision they encode.
#[derive(Debug, Clone, PartialEq, Eq)]
pub struct ChainId {
    pub id: Vec<u8>,
    pub version: u64,
}

#[verifier::ext_equal]
pub ghost struct ChainIdV {
    pub id: Seq<u8>,
    pub version: u64,
}

impl View for ChainId {
    type V = ChainIdV;

    open spec fn view(&self) -> ChainIdV {
        ChainIdV { id: self.id@, version: self.version }
    }
}

impl ChainId {
    pub fn new(id: Vec<u8>, version: u64) -> (r: ChainId)
        ensures
            r@ == (ChainIdV { id: id@, version }),
    {
        ChainId { id, version }
    }

    /// A copy whose contract is visible to the verifier.
    pub fn clone_id(&self) -> (r: ChainId)
        ensures
            r@ == self@,
    {
        ChainId { id: clone_bytes(&self.id), version: self.version }
    }

    /// The revision number this chain identifier carries.
    pub fn version(&self) -> (r: u64)
        ensures
            r == self@.version,
    {
        self.version
    }
}

} // verus!
