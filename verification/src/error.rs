//! Error taxonomy.
//!
//! Configuration and identity faults (revision mismatch, client-type
//! mismatch, unknown message type) are fatal to the call and never retried;
//! decode faults mean malformed bytes or a missing required field; network
//! faults are transport failures a caller may retry; not-found means the
//! queried entity does not exist at that height; unsupported marks an
//! operation a chain adapter does not offer.

use vstd::prelude::*;

verus! {

/// The light-client families a wrapped envelope can discriminate between.
#[derive(Debug, Clone, Copy, PartialEq, Eq, Structural)]
pub enum ClientType {
    Wasm,
    Tendermint,
}

/// Faults of the envelope codec itself.
#[derive(Debug, Clone, PartialEq, Eq)]
pub enum CodecError {
    /// Header wire bytes do not parse.
    InvalidHeader(String),
    /// Client-state wire bytes do not parse.
    InvalidRawClientState(String),
    /// Consensus-state wire bytes do not parse.
    InvalidRawConsensusState(String),
    /// A parsed client state or header lacks its height.
    MissingRawClientState(String),
    /// A parsed consensus state lacks its commitment root.
    MissingRawConsensusState(String),
}

/// Faults of the chain adapter, light client and event monitor.
#[derive(Debug, Clone, PartialEq, Eq)]
pub enum Error {
    /// Two heights (or a height and the adapter's configuration) carry
    /// different revision numbers.
    RevisionMismatch,
    /// The wrapped envelope's content does not match the chain family the
    /// adapter expects.
    ClientTypeMismatch { expected: ClientType, got: ClientType },
    /// The adapter cannot route a message of this type.
    UnknownMessageType(String),
    /// A code id is not a well-formed hexadecimal string.
    HexDecode,
    /// Returned bytes do not parse as the expected structure.
    Decode(String),
    /// The queried entity does not exist at that height.
    NotFound(String),
    /// An RPC or transport failure; the caller may retry.
    Network(String),
    /// The key store could not produce the requested key.
    Key(String),
    /// The operation is not supported by this chain adapter.
    Unsupported(String),
}

} // verus!
