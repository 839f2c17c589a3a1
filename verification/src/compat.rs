//! Chain-native data as this layer sees it, and its packaging into the
//! wrapped envelopes.
//!
//! A chain-native header or consensus snapshot reaches this layer as the
//! fields the relaying logic reads (block number, block time) together
//! with the chain's own serialisation of the full record, carried as
//! opaque bytes. Producing that serialisation is the transport layer's
//! concern; packaging it, and everything decided from it, is verified
//! here.

use vstd::prelude::*;
use crate::commitment::CommitmentRoot;
use crate::consensus_state::ConsensusState;
use crate::error::Error;
use crate::header::Header;
use crate::height::Height;
use crate::hexstr::{decode_hex, hex_bytes, is_hex_string};

verus! {

/// What the relayer reads of a chain-native header: the block number, the
/// block time (seconds since the Unix epoch), and the chain's own encoding
/// of the full header.
#[derive(Debug, Clone, PartialEq, Eq)]
pub struct NativeHeader {
    pub number: u64,
    pub time: u64,
    pub encoding: Vec<u8>,
}

/// A chain-native consensus snapshot (the signer set at a height), carried
/// as the chain's own encoding of it.
#[derive(Debug, Clone, PartialEq, Eq)]
pub struct NativeConsensus {
    pub encoding: Vec<u8>,
}

/// A chain-native block as the light client assembles it: the header at a
/// height paired with the consensus snapshot at that height.
#[derive(Debug, Clone, PartialEq, Eq)]
pub struct CeloBlock {
    pub header: NativeHeader,
    pub consensus_state: NativeConsensus,
}

impl CeloBlock {
    pub fn new(header: NativeHeader, consensus_state: NativeConsensus) -> (r: CeloBlock)
        ensures
            r.header == header,
            r.consensus_state == consensus_state,
    {
        CeloBlock { header, consensus_state }
    }
}

/// Package a chain-native header as a wrapped header at the given
/// revision: the height is the header's block number under that revision,
/// the payload is the chain-native encoding.
pub fn build_wasm_header(header: NativeHeader, revision_number: u64) -> (r: Header)
    ensures
        r@.height == (Height { revision_number, revision_height: header.number }),
        r@.data == header.encoding@,
{
    let height = Height::new(revision_number, header.number);
    Header { height, data: header.encoding }
}

/// Package a chain-native block as a wrapped consensus state: the payload
/// is the snapshot's chain-native encoding, the code id is the configured
/// hexadecimal id decoded to bytes, the timestamp is the block time, and
/// the commitment root is empty (the committee chain commits state
/// elsewhere).
pub fn build_wasm_consensus_state(block: CeloBlock, code_id: &str) -> (r: Result<
    ConsensusState,
    Error,
>)
    ensures
        is_hex_string(code_id@) ==> (r matches Ok(c) && c@.data == block.consensus_state.encoding@
            && c@.code_id == hex_bytes(code_id@) && c@.timestamp == block.header.time && c@.root
            == Seq::<u8>::empty()),
        !is_hex_string(code_id@) ==> r == Err::<ConsensusState, Error>(Error::HexDecode),
{
    match decode_hex(code_id) {
        None => Err(Error::HexDecode),
        Some(cid) => Ok(
            ConsensusState {
                data: block.consensus_state.encoding,
                code_id: cid,
                timestamp: block.header.time,
                root: CommitmentRoot { bytes: Vec::new() },
            },
        ),
    }
}

} // verus!
