//! Commitment roots: the state-commitment digest a consensus state carries,
//! used by membership and non-membership proofs. The root is an opaque byte
//! string to this layer.

use vstd::prelude::*;
use vstd::slice::slice_to_vec;

verus! {

#[derive(Debug, Clone, PartialEq, Eq)]
pub struct CommitmentRoot {
    pub bytes: Vec<u8>,
}

impl View for CommitmentRoot {
    type V = Seq<u8>;

    open spec fn view(&self) -> Seq<u8> {
        self.bytes@
    }
}

impl CommitmentRoot {
    pub fn from_bytes(bytes: &[u8]) -> (r: CommitmentRoot)
        ensures
            r@ == bytes@,
    {
        CommitmentRoot { bytes: slice_to_vec(bytes) }
    }

    pub fn into_vec(self) -> (r: Vec<u8>)
        ensures
            r@ == self@,
    {
        self.bytes
    }
}

} // verus!
