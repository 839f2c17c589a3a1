//! The wrapped client state and its wire codec.
//!
//! A `ClientState` carries an opaque, chain-native-encoded light-client
//! state (`data`), the identifier of the on-chain verifier logic that must
//! interpret it (`code_id`), the chain identity, the latest verified height
//! and the frozen flag. The wire form (`RawClientState`) carries the same
//! fields with the height optional; a wire form without a height is
//! rejected when converted back, never defaulted.

use vstd::prelude::*;
use vstd::string::StringExecFns;
use crate::error::{ClientType, CodecError};
use crate::height::Height;
use crate::identifier::{ChainId, ChainIdV};
use crate::wire::{
    bytes_fit, clone_bytes, lemma_parse_bytes_of_wire, lemma_parse_bool_of_wire,
    lemma_parse_opt_height_of_wire, lemma_parse_u64_of_wire,
    lemma_auto_wire_lens, parse_bool, parse_bytes, parse_opt_height, parse_u64, put_bool,
    put_bytes, put_opt_height, put_u64, take_bool, take_bytes, take_opt_height, take_u64,
    wire_bool, wire_bytes, wire_opt_height, wire_u64,
};

verus! {

#[derive(Debug, Clone, PartialEq, Eq)]
pub struct ClientState {
    pub data: Vec<u8>,
    pub code_id: Vec<u8>,
    pub chain_id: ChainId,
    pub latest_height: Height,
    pub is_frozen: bool,
}

#[verifier::ext_equal]
pub ghost struct ClientStateV {
    pub data: Seq<u8>,
    pub code_id: Seq<u8>,
    pub chain_id: ChainIdV,
    pub latest_height: Height,
    pub is_frozen: bool,
}

impl View for ClientState {
    type V = ClientStateV;

    open spec fn view(&self) -> ClientStateV {
        ClientStateV {
            data: self.data@,
            code_id: self.code_id@,
            chain_id: self.chain_id@,
            latest_height: self.latest_height,
            is_frozen: self.is_frozen,
        }
    }
}

/// The wire form of a client state: the same fields, height optional.
#[derive(Debug, Clone, PartialEq, Eq)]
pub struct RawClientState {
    pub data: Vec<u8>,
    pub code_id: Vec<u8>,
    pub latest_height: Option<Height>,
    pub chain_id: ChainId,
    pub is_frozen: bool,
}

#[verifier::ext_equal]
pub ghost struct RawClientStateV {
    pub data: Seq<u8>,
    pub code_id: Seq<u8>,
    pub latest_height: Option<Height>,
    pub chain_id: ChainIdV,
    pub is_frozen: bool,
}

impl View for RawClientState {
    type V = RawClientStateV;

    open spec fn view(&self) -> RawClientStateV {
        RawClientStateV {
            data: self.data@,
            code_id: self.code_id@,
            latest_height: self.latest_height,
            chain_id: self.chain_id@,
            is_frozen: self.is_frozen,
        }
    }
}

/// The client states the relayer can carry. The committee-chain adapter
/// handles the wasm family; a family it does not handle is identified by
/// its tag alone.
#[derive(Debug, Clone, PartialEq, Eq)]
pub enum AnyClientState {
    Wasm(ClientState),
    Other(ClientType),
}

impl AnyClientState {
    /// The family tag this client state belongs to.
    pub fn client_type(&self) -> (r: ClientType)
        ensures
            r == self.spec_client_type(),
    {
        match self {
            AnyClientState::Wasm(_) => ClientType::Wasm,
            AnyClientState::Other(t) => *t,
        }
    }

    pub open spec fn spec_client_type(&self) -> ClientType {
        match self {
            AnyClientState::Wasm(_) => ClientType::Wasm,
            AnyClientState::Other(t) => *t,
        }
    }
}

impl ClientState {
    pub fn chain_id(&self) -> (r: &ChainId)
        ensures
            r@ == self@.chain_id,
    {
        &self.chain_id
    }

    pub fn client_type(&self) -> (r: ClientType)
        ensures
            r == ClientType::Wasm,
    {
        ClientType::Wasm
    }

    pub fn latest_height(&self) -> (r: Height)
        ensures
            r == self@.latest_height,
    {
        self.latest_height
    }

    pub fn is_frozen(&self) -> (r: bool)
        ensures
            r == self@.is_frozen,
    {
        self.is_frozen
    }

    pub fn wrap_any(self) -> (r: AnyClientState)
        ensures
            r == AnyClientState::Wasm(self),
    {
        AnyClientState::Wasm(self)
    }
}

// ---------------------------------------------------------------------------
// Wire form (spec)
// ---------------------------------------------------------------------------

/// Every byte field must fit its `u64` length prefix.
pub open spec fn raw_client_state_fits(r: RawClientStateV) -> bool {
    bytes_fit(r.data) && bytes_fit(r.code_id) && bytes_fit(r.chain_id.id)
}

pub open spec fn raw_client_state_wire(r: RawClientStateV) -> Seq<u8> {
    wire_bytes(r.data) + wire_bytes(r.code_id) + wire_opt_height(r.latest_height) + wire_bytes(
        r.chain_id.id,
    ) + wire_u64(r.chain_id.version) + wire_bool(r.is_frozen)
}

pub open spec fn parse_raw_client_state(b: Seq<u8>) -> Option<RawClientStateV> {
    match parse_bytes(b, 0) {
        None => None,
        Some((data, p1)) => match parse_bytes(b, p1) {
            None => None,
            Some((code_id, p2)) => match parse_opt_height(b, p2) {
                None => None,
                Some((latest_height, p3)) => match parse_bytes(b, p3) {
                    None => None,
                    Some((id, p4)) => match parse_u64(b, p4) {
                        None => None,
                        Some((version, p5)) => match parse_bool(b, p5) {
                            None => None,
                            Some((is_frozen, p6)) => {
                                if p6 == b.len() {
                                    Some(
                                        RawClientStateV {
                                            data,
                                            code_id,
                                            latest_height,
                                            chain_id: ChainIdV { id, version },
                                            is_frozen,
                                        },
                                    )
                                } else {
                                    None
                                }
                            },
                        },
                    },
                },
            },
        },
    }
}

/// The raw form a client state is written out as: every field present.
pub open spec fn raw_of_client_state(c: ClientStateV) -> RawClientStateV {
    RawClientStateV {
        data: c.data,
        code_id: c.code_id,
        latest_height: Some(c.latest_height),
        chain_id: c.chain_id,
        is_frozen: c.is_frozen,
    }
}

/// The client state a raw form with a height converts to.
pub open spec fn client_state_of_raw(r: RawClientStateV) -> ClientStateV
    recommends
        r.latest_height is Some,
{
    ClientStateV {
        data: r.data,
        code_id: r.code_id,
        chain_id: r.chain_id,
        latest_height: r.latest_height->0,
        is_frozen: r.is_frozen,
    }
}

// ---------------------------------------------------------------------------
// Round trip
// ---------------------------------------------------------------------------

/// Parsing the wire form of any raw client state yields it back exactly.
pub proof fn lemma_raw_client_state_round_trip(r: RawClientStateV)
    requires
        raw_client_state_fits(r),
    ensures
        parse_raw_client_state(raw_client_state_wire(r)) == Some(r),
{
    lemma_auto_wire_lens();
    let f1 = wire_bytes(r.data);
    let f2 = wire_bytes(r.code_id);
    let f3 = wire_opt_height(r.latest_height);
    let f4 = wire_bytes(r.chain_id.id);
    let f5 = wire_u64(r.chain_id.version);
    let f6 = wire_bool(r.is_frozen);
    let b = raw_client_state_wire(r);
    let e = Seq::<u8>::empty();
    assert(b =~= e + f1 + (f2 + f3 + f4 + f5 + f6));
    lemma_parse_bytes_of_wire(e, r.data, f2 + f3 + f4 + f5 + f6);
    assert(b =~= (e + f1) + f2 + (f3 + f4 + f5 + f6));
    lemma_parse_bytes_of_wire(e + f1, r.code_id, f3 + f4 + f5 + f6);
    assert(b =~= (e + f1 + f2) + f3 + (f4 + f5 + f6));
    lemma_parse_opt_height_of_wire(e + f1 + f2, r.latest_height, f4 + f5 + f6);
    assert(b =~= (e + f1 + f2 + f3) + f4 + (f5 + f6));
    lemma_parse_bytes_of_wire(e + f1 + f2 + f3, r.chain_id.id, f5 + f6);
    assert(b =~= (e + f1 + f2 + f3 + f4) + f5 + f6);
    lemma_parse_u64_of_wire(e + f1 + f2 + f3 + f4, r.chain_id.version, f6);
    assert(b =~= (e + f1 + f2 + f3 + f4 + f5) + f6 + e);
    lemma_parse_bool_of_wire(e + f1 + f2 + f3 + f4 + f5, r.is_frozen, e);
    assert(parse_raw_client_state(b)->0 =~= r);
}

/// Law: the envelope codec is lossless for client states — decoding the
/// encoding of any client state (frozen or not, any chain id, any opaque
/// payload) yields that client state unchanged.
pub proof fn lemma_client_state_round_trip(c: ClientStateV)
    requires
        bytes_fit(c.data),
        bytes_fit(c.code_id),
        bytes_fit(c.chain_id.id),
    ensures
        parse_raw_client_state(raw_client_state_wire(raw_of_client_state(c))) == Some(
            raw_of_client_state(c),
        ),
        client_state_of_raw(raw_of_client_state(c)) == c,
{
    lemma_raw_client_state_round_trip(raw_of_client_state(c));
    assert(client_state_of_raw(raw_of_client_state(c)) =~= c);
}

// ---------------------------------------------------------------------------
// Executable codec
// ---------------------------------------------------------------------------

impl RawClientState {
    pub fn encode(&self) -> (out: Vec<u8>)
        ensures
            out@ == raw_client_state_wire(self@),
    {
        let mut out: Vec<u8> = Vec::new();
        put_bytes(&mut out, &self.data);
        put_bytes(&mut out, &self.code_id);
        put_opt_height(&mut out, &self.latest_height);
        put_bytes(&mut out, &self.chain_id.id);
        put_u64(&mut out, self.chain_id.version);
        put_bool(&mut out, self.is_frozen);
        proof {
            assert(out@ =~= raw_client_state_wire(self@));
        }
        out
    }

    pub fn decode(b: &Vec<u8>) -> (r: Option<RawClientState>)
        ensures
            match r {
                Some(raw) => parse_raw_client_state(b@) == Some(raw@),
                None => parse_raw_client_state(b@) is None,
            },
    {
        match take_bytes(b, 0) {
            None => None,
            Some((data, p1)) => match take_bytes(b, p1) {
                None => None,
                Some((code_id, p2)) => match take_opt_height(b, p2) {
                    None => None,
                    Some((latest_height, p3)) => match take_bytes(b, p3) {
                        None => None,
                        Some((id, p4)) => match take_u64(b, p4) {
                            None => None,
                            Some((version, p5)) => match take_bool(b, p5) {
                                None => None,
                                Some((is_frozen, p6)) => {
                                    if p6 == b.len() {
                                        Some(
                                            RawClientState {
                                                data,
                                                code_id,
                                                latest_height,
                                                chain_id: ChainId { id, version },
                                                is_frozen,
                                            },
                                        )
                                    } else {
                                        None
                                    }
                                },
                            },
                        },
                    },
                },
            },
        }
    }
}

impl ClientState {
    /// Convert a parsed wire form; a wire form without a height is
    /// rejected, never defaulted.
    pub fn from_raw(raw: RawClientState) -> (r: Result<ClientState, CodecError>)
        ensures
            raw.latest_height is Some ==> (r matches Ok(c) && c@ == client_state_of_raw(raw@)),
            raw.latest_height is None ==> (r matches Err(CodecError::MissingRawClientState(m))
                && m@ == "missing latest_height"@),
    {
        match raw.latest_height {
            None => Err(
                CodecError::MissingRawClientState(String::from_str("missing latest_height")),
            ),
            Some(h) => Ok(
                ClientState {
                    data: raw.data,
                    code_id: raw.code_id,
                    chain_id: raw.chain_id,
                    latest_height: h,
                    is_frozen: raw.is_frozen,
                },
            ),
        }
    }

    /// The wire form of this client state: every field present.
    pub fn to_raw(&self) -> (r: RawClientState)
        ensures
            r@ == raw_of_client_state(self@),
    {
        RawClientState {
            data: clone_bytes(&self.data),
            code_id: clone_bytes(&self.code_id),
            latest_height: Some(self.latest_height),
            chain_id: ChainId { id: clone_bytes(&self.chain_id.id), version: self.chain_id.version },
            is_frozen: self.is_frozen,
        }
    }
}

/// Encode a client state to its wire form.
pub fn encode_client_state(c: &ClientState) -> (out: Vec<u8>)
    ensures
        out@ == raw_client_state_wire(raw_of_client_state(c@)),
{
    c.to_raw().encode()
}

/// Decode a client state from its wire form. Malformed bytes and a missing
/// height each produce their own typed error; no field is defaulted.
pub fn decode_client_state(b: &Vec<u8>) -> (r: Result<ClientState, CodecError>)
    ensures
        parse_raw_client_state(b@) is None ==> r matches Err(
            CodecError::InvalidRawClientState(_),
        ),
        parse_raw_client_state(b@) matches Some(raw) ==> {
            &&& raw.latest_height is Some ==> (r matches Ok(c) && c@ == client_state_of_raw(
                raw,
            ))
            &&& raw.latest_height is None ==> r matches Err(CodecError::MissingRawClientState(_))
        },
{
    match RawClientState::decode(b) {
        None => Err(
            CodecError::InvalidRawClientState(
                String::from_str("client state bytes do not parse"),
            ),
        ),
        Some(raw) => ClientState::from_raw(raw),
    }
}

} // verus!
