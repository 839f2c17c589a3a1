//! The wrapped consensus state and its wire codec.
//!
//! A `ConsensusState` carries the chain-native consensus snapshot as opaque
//! bytes, the verifier code id, the source-chain block time (seconds since
//! the Unix epoch) and the state-commitment root used for membership
//! proofs. One instance exists per trusted height and is immutable after
//! creation.

use vstd::prelude::*;
use vstd::string::StringExecFns;
use crate::commitment::CommitmentRoot;
use crate::error::{ClientType, CodecError, Error};
use crate::wire::{
    bytes_fit, clone_bytes, lemma_auto_wire_lens, lemma_parse_bytes_of_wire,
    lemma_parse_opt_bytes_of_wire, lemma_parse_u64_of_wire, parse_bytes, parse_opt_bytes,
    parse_u64, put_bytes, put_opt_bytes, put_u64, take_bytes, take_opt_bytes, take_u64,
    wire_bytes, wire_opt_bytes, wire_u64,
};

verus! {

#[derive(Debug, Clone, PartialEq, Eq)]
pub struct ConsensusState {
    pub data: Vec<u8>,
    pub code_id: Vec<u8>,
    /// Source-chain block time at this height, in seconds since the Unix
    /// epoch.
    pub timestamp: u64,
    pub root: CommitmentRoot,
}

#[verifier::ext_equal]
pub ghost struct ConsensusStateV {
    pub data: Seq<u8>,
    pub code_id: Seq<u8>,
    pub timestamp: u64,
    pub root: Seq<u8>,
}

impl View for ConsensusState {
    type V = ConsensusStateV;

    open spec fn view(&self) -> ConsensusStateV {
        ConsensusStateV {
            data: self.data@,
            code_id: self.code_id@,
            timestamp: self.timestamp,
            root: self.root@,
        }
    }
}

/// The wire form of a consensus state: the same fields, root optional.
#[derive(Debug, Clone, PartialEq, Eq)]
pub struct RawConsensusState {
    pub data: Vec<u8>,
    pub code_id: Vec<u8>,
    pub timestamp: u64,
    pub root: Option<Vec<u8>>,
}

#[verifier::ext_equal]
pub ghost struct RawConsensusStateV {
    pub data: Seq<u8>,
    pub code_id: Seq<u8>,
    pub timestamp: u64,
    pub root: Option<Seq<u8>>,
}

impl View for RawConsensusState {
    type V = RawConsensusStateV;

    open spec fn view(&self) -> RawConsensusStateV {
        RawConsensusStateV {
            data: self.data@,
            code_id: self.code_id@,
            timestamp: self.timestamp,
            root: match self.root {
                None => None,
                Some(ref r) => Some(r@),
            },
        }
    }
}

/// The consensus states the relayer can carry; a family this adapter does
/// not handle is identified by its tag alone.
#[derive(Debug, Clone, PartialEq, Eq)]
pub enum AnyConsensusState {
    Wasm(ConsensusState),
    Other(ClientType),
}

impl ConsensusState {
    pub fn client_type(&self) -> (r: ClientType)
        ensures
            r == ClientType::Wasm,
    {
        ClientType::Wasm
    }

    /// Basic validation is not offered for this consensus state yet; the
    /// typed unsupported outcome is distinguishable from success.
    pub fn validate_basic(&self) -> (r: Result<(), Error>)
        ensures
            r matches Err(Error::Unsupported(_)),
    {
        Err(Error::Unsupported(String::from_str("validate_basic")))
    }

    pub fn root(&self) -> (r: &CommitmentRoot)
        ensures
            r@ == self@.root,
    {
        &self.root
    }

    pub fn wrap_any(self) -> (r: AnyConsensusState)
        ensures
            r == AnyConsensusState::Wasm(self),
    {
        AnyConsensusState::Wasm(self)
    }
}

// ---------------------------------------------------------------------------
// Wire form (spec)
// ---------------------------------------------------------------------------

pub open spec fn raw_consensus_state_fits(r: RawConsensusStateV) -> bool {
    &&& bytes_fit(r.data)
    &&& bytes_fit(r.code_id)
    &&& r.root is Some ==> bytes_fit(r.root->0)
}

pub open spec fn raw_consensus_state_wire(r: RawConsensusStateV) -> Seq<u8> {
    wire_bytes(r.data) + wire_bytes(r.code_id) + wire_u64(r.timestamp) + wire_opt_bytes(r.root)
}

pub open spec fn parse_raw_consensus_state(b: Seq<u8>) -> Option<RawConsensusStateV> {
    match parse_bytes(b, 0) {
        None => None,
        Some((data, p1)) => match parse_bytes(b, p1) {
            None => None,
            Some((code_id, p2)) => match parse_u64(b, p2) {
                None => None,
                Some((timestamp, p3)) => match parse_opt_bytes(b, p3) {
                    None => None,
                    Some((root, p4)) => {
                        if p4 == b.len() {
                            Some(RawConsensusStateV { data, code_id, timestamp, root })
                        } else {
                            None
                        }
                    },
                },
            },
        },
    }
}

pub open spec fn raw_of_consensus_state(c: ConsensusStateV) -> RawConsensusStateV {
    RawConsensusStateV {
        data: c.data,
        code_id: c.code_id,
        timestamp: c.timestamp,
        root: Some(c.root),
    }
}

pub open spec fn consensus_state_of_raw(r: RawConsensusStateV) -> ConsensusStateV
    recommends
        r.root is Some,
{
    ConsensusStateV {
        data: r.data,
        code_id: r.code_id,
        timestamp: r.timestamp,
        root: r.root->0,
    }
}

// ---------------------------------------------------------------------------
// Round trip
// ---------------------------------------------------------------------------

/// Parsing the wire form of any raw consensus state yields it back exactly.
pub proof fn lemma_raw_consensus_state_round_trip(r: RawConsensusStateV)
    requires
        raw_consensus_state_fits(r),
    ensures
        parse_raw_consensus_state(raw_consensus_state_wire(r)) == Some(r),
{
    lemma_auto_wire_lens();
    let f1 = wire_bytes(r.data);
    let f2 = wire_bytes(r.code_id);
    let f3 = wire_u64(r.timestamp);
    let f4 = wire_opt_bytes(r.root);
    let b = raw_consensus_state_wire(r);
    let e = Seq::<u8>::empty();
    assert(b =~= e + f1 + (f2 + f3 + f4));
    lemma_parse_bytes_of_wire(e, r.data, f2 + f3 + f4);
    assert(b =~= (e + f1) + f2 + (f3 + f4));
    lemma_parse_bytes_of_wire(e + f1, r.code_id, f3 + f4);
    assert(b =~= (e + f1 + f2) + f3 + f4);
    lemma_parse_u64_of_wire(e + f1 + f2, r.timestamp, f4);
    assert(b =~= (e + f1 + f2 + f3) + f4 + e);
    lemma_parse_opt_bytes_of_wire(e + f1 + f2 + f3, r.root, e);
    assert(parse_raw_consensus_state(b)->0 =~= r);
}

/// Law: the envelope codec is lossless for consensus states — decoding the
/// encoding of any consensus state yields that consensus state unchanged.
pub proof fn lemma_consensus_state_round_trip(c: ConsensusStateV)
    requires
        bytes_fit(c.data),
        bytes_fit(c.code_id),
        bytes_fit(c.root),
    ensures
        parse_raw_consensus_state(raw_consensus_state_wire(raw_of_consensus_state(c))) == Some(
            raw_of_consensus_state(c),
        ),
        consensus_state_of_raw(raw_of_consensus_state(c)) == c,
{
    lemma_raw_consensus_state_round_trip(raw_of_consensus_state(c));
    assert(consensus_state_of_raw(raw_of_consensus_state(c)) =~= c);
}

// ---------------------------------------------------------------------------
// Executable codec
// ---------------------------------------------------------------------------

impl RawConsensusState {
    pub fn encode(&self) -> (out: Vec<u8>)
        ensures
            out@ == raw_consensus_state_wire(self@),
    {
        let mut out: Vec<u8> = Vec::new();
        put_bytes(&mut out, &self.data);
        put_bytes(&mut out, &self.code_id);
        put_u64(&mut out, self.timestamp);
        put_opt_bytes(&mut out, &self.root);
        proof {
            assert(out@ =~= raw_consensus_state_wire(self@));
        }
        out
    }

    pub fn decode(b: &Vec<u8>) -> (r: Option<RawConsensusState>)
        ensures
            match r {
                Some(raw) => parse_raw_consensus_state(b@) == Some(raw@),
                None => parse_raw_consensus_state(b@) is None,
            },
    {
        match take_bytes(b, 0) {
            None => None,
            Some((data, p1)) => match take_bytes(b, p1) {
                None => None,
                Some((code_id, p2)) => match take_u64(b, p2) {
                    None => None,
                    Some((timestamp, p3)) => match take_opt_bytes(b, p3) {
                        None => None,
                        Some((root, p4)) => {
                            if p4 == b.len() {
                                Some(RawConsensusState { data, code_id, timestamp, root })
                            } else {
                                None
                            }
                        },
                    },
                },
            },
        }
    }
}

impl ConsensusState {
    /// Convert a parsed wire form; a wire form without a commitment root is
    /// rejected, never defaulted.
    pub fn from_raw(raw: RawConsensusState) -> (r: Result<ConsensusState, CodecError>)
        ensures
            raw.root is Some ==> (r matches Ok(c) && c@ == consensus_state_of_raw(raw@)),
            raw.root is None ==> (r matches Err(CodecError::MissingRawConsensusState(m)) && m@
                == "missing root"@),
    {
        match raw.root {
            None => Err(CodecError::MissingRawConsensusState(String::from_str("missing root"))),
            Some(hash) => Ok(
                ConsensusState {
                    data: raw.data,
                    code_id: raw.code_id,
                    timestamp: raw.timestamp,
                    root: CommitmentRoot { bytes: hash },
                },
            ),
        }
    }

    /// The wire form of this consensus state: every field present.
    pub fn to_raw(&self) -> (r: RawConsensusState)
        ensures
            r@ == raw_of_consensus_state(self@),
    {
        RawConsensusState {
            data: clone_bytes(&self.data),
            code_id: clone_bytes(&self.code_id),
            timestamp: self.timestamp,
            root: Some(clone_bytes(&self.root.bytes)),
        }
    }
}

/// Encode a consensus state to its wire form.
pub fn encode_consensus_state(c: &ConsensusState) -> (out: Vec<u8>)
    ensures
        out@ == raw_consensus_state_wire(raw_of_consensus_state(c@)),
{
    c.to_raw().encode()
}

/// Decode a consensus state from its wire form. Malformed bytes and a
/// missing root each produce their own typed error; no field is defaulted.
pub fn decode_consensus_state(b: &Vec<u8>) -> (r: Result<ConsensusState, CodecError>)
    ensures
        parse_raw_consensus_state(b@) is None ==> r matches Err(
            CodecError::InvalidRawConsensusState(_),
        ),
        parse_raw_consensus_state(b@) matches Some(raw) ==> {
            &&& raw.root is Some ==> (r matches Ok(c) && c@ == consensus_state_of_raw(raw))
            &&& raw.root is None ==> r matches Err(CodecError::MissingRawConsensusState(_))
        },
{
    match RawConsensusState::decode(b) {
        None => Err(
            CodecError::InvalidRawConsensusState(
                String::from_str("consensus state bytes do not parse"),
            ),
        ),
        Some(raw) => ConsensusState::from_raw(raw),
    }
}

} // verus!
