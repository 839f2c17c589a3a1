//! The wrapped header and its wire codec.
//!
//! A `Header` carries the chain-native header encoding as opaque bytes,
//! together with the height it attests to. It is produced per update and
//! not persisted by this layer.

use vstd::prelude::*;
use vstd::string::StringExecFns;
use crate::error::{ClientType, CodecError};
use crate::height::Height;
use crate::wire::{
    bytes_fit, clone_bytes, lemma_auto_wire_lens, lemma_parse_bytes_of_wire,
    lemma_parse_opt_height_of_wire, parse_bytes, parse_opt_height, put_bytes, put_opt_height,
    take_bytes, take_opt_height, wire_bytes, wire_opt_height,
};

verus! {

#[derive(Debug, Clone, PartialEq, Eq)]
pub struct Header {
    pub height: Height,
    pub data: Vec<u8>,
}

#[verifier::ext_equal]
pub ghost struct HeaderV {
    pub height: Height,
    pub data: Seq<u8>,
}

impl View for Header {
    type V = HeaderV;

    open spec fn view(&self) -> HeaderV {
        HeaderV { height: self.height, data: self.data@ }
    }
}

/// The wire form of a header: the same fields, height optional.
#[derive(Debug, Clone, PartialEq, Eq)]
pub struct RawHeader {
    pub data: Vec<u8>,
    pub height: Option<Height>,
}

#[verifier::ext_equal]
pub ghost struct RawHeaderV {
    pub data: Seq<u8>,
    pub height: Option<Height>,
}

impl View for RawHeader {
    type V = RawHeaderV;

    open spec fn view(&self) -> RawHeaderV {
        RawHeaderV { data: self.data@, height: self.height }
    }
}

/// The headers the relayer can carry; a family this adapter does not
/// handle is identified by its tag alone.
#[derive(Debug, Clone, PartialEq, Eq)]
pub enum AnyHeader {
    Wasm(Header),
    Other(ClientType),
}

impl Header {
    pub fn client_type(&self) -> (r: ClientType)
        ensures
            r == ClientType::Wasm,
    {
        ClientType::Wasm
    }

    pub fn height(&self) -> (r: Height)
        ensures
            r == self@.height,
    {
        self.height
    }

    pub fn wrap_any(self) -> (r: AnyHeader)
        ensures
            r == AnyHeader::Wasm(self),
    {
        AnyHeader::Wasm(self)
    }
}

// ---------------------------------------------------------------------------
// Wire form (spec)
// ---------------------------------------------------------------------------

pub open spec fn raw_header_fits(r: RawHeaderV) -> bool {
    bytes_fit(r.data)
}

pub open spec fn raw_header_wire(r: RawHeaderV) -> Seq<u8> {
    wire_bytes(r.data) + wire_opt_height(r.height)
}

pub open spec fn parse_raw_header(b: Seq<u8>) -> Option<RawHeaderV> {
    match parse_bytes(b, 0) {
        None => None,
        Some((data, p1)) => match parse_opt_height(b, p1) {
            None => None,
            Some((height, p2)) => {
                if p2 == b.len() {
                    Some(RawHeaderV { data, height })
                } else {
                    None
                }
            },
        },
    }
}

pub open spec fn raw_of_header(h: HeaderV) -> RawHeaderV {
    RawHeaderV { data: h.data, height: Some(h.height) }
}

pub open spec fn header_of_raw(r: RawHeaderV) -> HeaderV
    recommends
        r.height is Some,
{
    HeaderV { height: r.height->0, data: r.data }
}

// ---------------------------------------------------------------------------
// Round trip
// ---------------------------------------------------------------------------

/// Parsing the wire form of any raw header yields it back exactly.
pub proof fn lemma_raw_header_round_trip(r: RawHeaderV)
    requires
        raw_header_fits(r),
    ensures
        parse_raw_header(raw_header_wire(r)) == Some(r),
{
    lemma_auto_wire_lens();
    let f1 = wire_bytes(r.data);
    let f2 = wire_opt_height(r.height);
    let b = raw_header_wire(r);
    let e = Seq::<u8>::empty();
    assert(b =~= e + f1 + f2);
    lemma_parse_bytes_of_wire(e, r.data, f2);
    assert(b =~= (e + f1) + f2 + e);
    lemma_parse_opt_height_of_wire(e + f1, r.height, e);
    assert(parse_raw_header(b)->0 =~= r);
}

/// Law: the envelope codec is lossless for headers — decoding the encoding
/// of any header yields that header unchanged.
pub proof fn lemma_header_round_trip(h: HeaderV)
    requires
        bytes_fit(h.data),
    ensures
        parse_raw_header(raw_header_wire(raw_of_header(h))) == Some(raw_of_header(h)),
        header_of_raw(raw_of_header(h)) == h,
{
    lemma_raw_header_round_trip(raw_of_header(h));
    assert(header_of_raw(raw_of_header(h)) =~= h);
}

// ---------------------------------------------------------------------------
// Executable codec
// ---------------------------------------------------------------------------

impl RawHeader {
    pub fn encode(&self) -> (out: Vec<u8>)
        ensures
            out@ == raw_header_wire(self@),
    {
        let mut out: Vec<u8> = Vec::new();
        put_bytes(&mut out, &self.data);
        put_opt_height(&mut out, &self.height);
        proof {
            assert(out@ =~= raw_header_wire(self@));
        }
        out
    }

    pub fn decode(b: &Vec<u8>) -> (r: Option<RawHeader>)
        ensures
            match r {
                Some(raw) => parse_raw_header(b@) == Some(raw@),
                None => parse_raw_header(b@) is None,
            },
    {
        match take_bytes(b, 0) {
            None => None,
            Some((data, p1)) => match take_opt_height(b, p1) {
                None => None,
                Some((height, p2)) => {
                    if p2 == b.len() {
                        Some(RawHeader { data, height })
                    } else {
                        None
                    }
                },
            },
        }
    }
}

impl Header {
    /// Convert a parsed wire form; a wire form without a height is
    /// rejected, never defaulted.
    pub fn from_raw(raw: RawHeader) -> (r: Result<Header, CodecError>)
        ensures
            raw.height is Some ==> (r matches Ok(h) && h@ == header_of_raw(raw@)),
            raw.height is None ==> (r matches Err(CodecError::MissingRawClientState(m)) && m@
                == "missing latest_height"@),
    {
        match raw.height {
            None => Err(
                CodecError::MissingRawClientState(String::from_str("missing latest_height")),
            ),
            Some(h) => Ok(Header { height: h, data: raw.data }),
        }
    }

    /// The wire form of this header: every field present.
    pub fn to_raw(&self) -> (r: RawHeader)
        ensures
            r@ == raw_of_header(self@),
    {
        RawHeader { data: clone_bytes(&self.data), height: Some(self.height) }
    }
}

/// Encode a header to its wire form.
pub fn encode_header(h: &Header) -> (out: Vec<u8>)
    ensures
        out@ == raw_header_wire(raw_of_header(h@)),
{
    h.to_raw().encode()
}

/// Decode a header from its wire form. Malformed bytes and a missing
/// height each produce their own typed error; no field is defaulted.
pub fn decode_header(b: &Vec<u8>) -> (r: Result<Header, CodecError>)
    ensures
        parse_raw_header(b@) is None ==> r matches Err(CodecError::InvalidHeader(_)),
        parse_raw_header(b@) matches Some(raw) ==> {
            &&& raw.height is Some ==> (r matches Ok(h) && h@ == header_of_raw(raw))
            &&& raw.height is None ==> r matches Err(CodecError::MissingRawClientState(_))
        },
{
    match RawHeader::decode(b) {
        None => Err(CodecError::InvalidHeader(String::from_str("header bytes do not parse"))),
        Some(raw) => Header::from_raw(raw),
    }
}

} // verus!
