//! Wire primitives for the wrapped-envelope codec.
//!
//! Every envelope message is a fixed-order concatenation of fields. A byte
//! field is length-prefixed with a little-endian `u64`; an optional field is
//! prefixed with a presence byte (`0` absent, `1` present); a boolean is a
//! single `0`/`1` byte. The `wire_*` spec functions define what a field's
//! encoding is; the `parse_*` spec functions define what a well-formed
//! encoding parses to. The `lemma_parse_*` lemmas show that parsing reads
//! back exactly what was written, which is what the codec's round-trip
//! guarantees rest on.

use vstd::prelude::*;
use vstd::bytes::{
    lemma_auto_spec_u64_to_from_le_bytes, spec_u64_from_le_bytes, spec_u64_to_le_bytes,
    u64_from_le_bytes, u64_to_le_bytes,
};
use vstd::slice::{slice_subrange, slice_to_vec};
use crate::height::Height;

verus! {

// ---------------------------------------------------------------------------
// Field encodings (spec)
// ---------------------------------------------------------------------------

/// A `u64` field: eight bytes, little endian.
pub open spec fn wire_u64(v: u64) -> Seq<u8> {
    spec_u64_to_le_bytes(v)
}

/// A single presence / boolean byte.
pub open spec fn wire_bool(v: bool) -> Seq<u8> {
    seq![if v { 1u8 } else { 0u8 }]
}

/// A byte field: `u64` length prefix, then the bytes themselves.
pub open spec fn wire_bytes(b: Seq<u8>) -> Seq<u8> {
    wire_u64(b.len() as u64) + b
}

/// An optional height: presence byte, then revision number and height.
pub open spec fn wire_opt_height(h: Option<Height>) -> Seq<u8> {
    match h {
        None => wire_bool(false),
        Some(hh) => wire_bool(true) + wire_u64(hh.revision_number) + wire_u64(hh.revision_height),
    }
}

/// An optional byte field: presence byte, then the length-prefixed bytes.
pub open spec fn wire_opt_bytes(b: Option<Seq<u8>>) -> Seq<u8> {
    match b {
        None => wire_bool(false),
        Some(bb) => wire_bool(true) + wire_bytes(bb),
    }
}

/// The `u64` length prefix must be able to hold the field's length.
pub open spec fn bytes_fit(b: Seq<u8>) -> bool {
    b.len() <= u64::MAX
}

// ---------------------------------------------------------------------------
// Field parsers (spec)
// ---------------------------------------------------------------------------
// Each parser takes the whole buffer and a position, and yields the parsed
// value together with the position just after it, or `None` on malformed
// (truncated, or an invalid presence byte) input.

pub open spec fn parse_u64(b: Seq<u8>, pos: int) -> Option<(u64, int)> {
    if 0 <= pos && pos + 8 <= b.len() {
        Some((spec_u64_from_le_bytes(b.subrange(pos, pos + 8)), pos + 8))
    } else {
        None
    }
}

pub open spec fn parse_bool(b: Seq<u8>, pos: int) -> Option<(bool, int)> {
    if 0 <= pos && pos + 1 <= b.len() {
        if b[pos] == 0u8 {
            Some((false, pos + 1))
        } else if b[pos] == 1u8 {
            Some((true, pos + 1))
        } else {
            None
        }
    } else {
        None
    }
}

pub open spec fn parse_bytes(b: Seq<u8>, pos: int) -> Option<(Seq<u8>, int)> {
    match parse_u64(b, pos) {
        None => None,
        Some((n, p)) => {
            if p + n <= b.len() {
                Some((b.subrange(p, p + n), p + n))
            } else {
                None
            }
        },
    }
}

pub open spec fn parse_opt_height(b: Seq<u8>, pos: int) -> Option<(Option<Height>, int)> {
    match parse_bool(b, pos) {
        None => None,
        Some((present, p)) => {
            if !present {
                Some((None, p))
            } else {
                match parse_u64(b, p) {
                    None => None,
                    Some((rn, p2)) => match parse_u64(b, p2) {
                        None => None,
                        Some((rh, p3)) => Some(
                            (Some(Height { revision_number: rn, revision_height: rh }), p3),
                        ),
                    },
                }
            }
        },
    }
}

pub open spec fn parse_opt_bytes(b: Seq<u8>, pos: int) -> Option<(Option<Seq<u8>>, int)> {
    match parse_bool(b, pos) {
        None => None,
        Some((present, p)) => {
            if !present {
                Some((None, p))
            } else {
                match parse_bytes(b, p) {
                    None => None,
                    Some((x, p2)) => Some((Some(x), p2)),
                }
            }
        },
    }
}

// ---------------------------------------------------------------------------
// Parsing reads back what was written
// ---------------------------------------------------------------------------

/// The length of each field encoding.
pub proof fn lemma_auto_wire_lens()
    ensures
        forall|v: u64| (#[trigger] wire_u64(v)).len() == 8,
        forall|v: bool| (#[trigger] wire_bool(v)).len() == 1,
        forall|b: Seq<u8>| (#[trigger] wire_bytes(b)).len() == 8 + b.len(),
        forall|h: Option<Height>|
            (#[trigger] wire_opt_height(h)).len() == if h is Some {
                17int
            } else {
                1int
            },
        forall|b: Option<Seq<u8>>|
            (#[trigger] wire_opt_bytes(b)).len() == if b is Some {
                9 + b->0.len() as int
            } else {
                1int
            },
{
    lemma_auto_spec_u64_to_from_le_bytes();
    assert forall|b: Seq<u8>| (#[trigger] wire_bytes(b)).len() == 8 + b.len() by {
        assert(wire_u64(b.len() as u64).len() == 8);
    }
    assert forall|h: Option<Height>|
        (#[trigger] wire_opt_height(h)).len() == if h is Some {
            17int
        } else {
            1int
        } by {
        match h {
            None => {},
            Some(hh) => {
                assert(wire_u64(hh.revision_number).len() == 8);
                assert(wire_u64(hh.revision_height).len() == 8);
            },
        }
    }
    assert forall|b: Option<Seq<u8>>|
        (#[trigger] wire_opt_bytes(b)).len() == if b is Some {
            9 + b->0.len() as int
        } else {
            1int
        } by {
        match b {
            None => {},
            Some(bb) => {
                assert(wire_u64(bb.len() as u64).len() == 8);
            },
        }
    }
}

pub proof fn lemma_parse_opt_bytes_of_wire(pre: Seq<u8>, x: Option<Seq<u8>>, rest: Seq<u8>)
    requires
        x is Some ==> bytes_fit(x->0),
    ensures
        parse_opt_bytes(pre + wire_opt_bytes(x) + rest, pre.len() as int) == Some(
            (x, pre.len() as int + wire_opt_bytes(x).len() as int),
        ),
{
    lemma_auto_wire_lens();
    let b = pre + wire_opt_bytes(x) + rest;
    match x {
        None => {
            assert(b =~= pre + wire_bool(false) + rest);
            lemma_parse_bool_of_wire(pre, false, rest);
        },
        Some(xx) => {
            assert(b =~= pre + wire_bool(true) + (wire_bytes(xx) + rest));
            lemma_parse_bool_of_wire(pre, true, wire_bytes(xx) + rest);
            let pre2 = pre + wire_bool(true);
            assert(b =~= pre2 + wire_bytes(xx) + rest);
            lemma_parse_bytes_of_wire(pre2, xx, rest);
        },
    }
}

pub proof fn lemma_parse_u64_of_wire(pre: Seq<u8>, v: u64, rest: Seq<u8>)
    ensures
        parse_u64(pre + wire_u64(v) + rest, pre.len() as int) == Some((v, pre.len() as int + 8)),
{
    lemma_auto_spec_u64_to_from_le_bytes();
    let b = pre + wire_u64(v) + rest;
    assert(b.subrange(pre.len() as int, pre.len() as int + 8) =~= wire_u64(v));
}

pub proof fn lemma_parse_bool_of_wire(pre: Seq<u8>, v: bool, rest: Seq<u8>)
    ensures
        parse_bool(pre + wire_bool(v) + rest, pre.len() as int) == Some((v, pre.len() as int + 1)),
{
    let b = pre + wire_bool(v) + rest;
    assert(b[pre.len() as int] == (if v { 1u8 } else { 0u8 }));
}

pub proof fn lemma_parse_bytes_of_wire(pre: Seq<u8>, x: Seq<u8>, rest: Seq<u8>)
    requires
        bytes_fit(x),
    ensures
        parse_bytes(pre + wire_bytes(x) + rest, pre.len() as int) == Some(
            (x, pre.len() as int + 8 + x.len() as int),
        ),
{
    lemma_auto_spec_u64_to_from_le_bytes();
    let b = pre + wire_bytes(x) + rest;
    assert(b =~= pre + wire_u64(x.len() as u64) + (x + rest));
    lemma_parse_u64_of_wire(pre, x.len() as u64, x + rest);
    assert(b.subrange(pre.len() as int + 8, pre.len() as int + 8 + x.len() as int) =~= x);
}

pub proof fn lemma_parse_opt_height_of_wire(pre: Seq<u8>, h: Option<Height>, rest: Seq<u8>)
    ensures
        parse_opt_height(pre + wire_opt_height(h) + rest, pre.len() as int) == Some(
            (h, pre.len() as int + wire_opt_height(h).len() as int),
        ),
{
    lemma_auto_spec_u64_to_from_le_bytes();
    let b = pre + wire_opt_height(h) + rest;
    match h {
        None => {
            assert(b =~= pre + wire_bool(false) + rest);
            lemma_parse_bool_of_wire(pre, false, rest);
        },
        Some(hh) => {
            assert(b =~= pre + wire_bool(true) + (wire_u64(hh.revision_number) + wire_u64(
                hh.revision_height,
            ) + rest));
            lemma_parse_bool_of_wire(
                pre,
                true,
                wire_u64(hh.revision_number) + wire_u64(hh.revision_height) + rest,
            );
            let pre2 = pre + wire_bool(true);
            assert(b =~= pre2 + wire_u64(hh.revision_number) + (wire_u64(hh.revision_height)
                + rest));
            lemma_parse_u64_of_wire(pre2, hh.revision_number, wire_u64(hh.revision_height) + rest);
            let pre3 = pre2 + wire_u64(hh.revision_number);
            assert(b =~= pre3 + wire_u64(hh.revision_height) + rest);
            lemma_parse_u64_of_wire(pre3, hh.revision_height, rest);
        },
    }
}

/// Copy a byte vector. (A derived `Clone` says nothing to the verifier;
/// this copy's contract does.)
pub fn clone_bytes(v: &Vec<u8>) -> (r: Vec<u8>)
    ensures
        r@ == v@,
{
    slice_to_vec(v.as_slice())
}

// ---------------------------------------------------------------------------
// Executable writers
// ---------------------------------------------------------------------------

pub fn put_u64(out: &mut Vec<u8>, v: u64)
    ensures
        final(out)@ == old(out)@ + wire_u64(v),
{
    let mut bs = u64_to_le_bytes(v);
    out.append(&mut bs);
}

pub fn put_bool(out: &mut Vec<u8>, v: bool)
    ensures
        final(out)@ == old(out)@ + wire_bool(v),
{
    out.push(if v { 1u8 } else { 0u8 });
    assert(out@ =~= old(out)@ + wire_bool(v));
}

pub fn put_bytes(out: &mut Vec<u8>, b: &Vec<u8>)
    ensures
        final(out)@ == old(out)@ + wire_bytes(b@),
{
    put_u64(out, b.len() as u64);
    let mut tmp = slice_to_vec(b.as_slice());
    out.append(&mut tmp);
    assert(out@ =~= old(out)@ + wire_bytes(b@));
}

pub fn put_opt_height(out: &mut Vec<u8>, h: &Option<Height>)
    ensures
        final(out)@ == old(out)@ + wire_opt_height(*h),
{
    match h {
        None => {
            put_bool(out, false);
        },
        Some(hh) => {
            put_bool(out, true);
            put_u64(out, hh.revision_number);
            put_u64(out, hh.revision_height);
        },
    }
    assert(out@ =~= old(out)@ + wire_opt_height(*h));
}

// ---------------------------------------------------------------------------
// Executable readers
// ---------------------------------------------------------------------------

pub fn take_u64(b: &Vec<u8>, pos: usize) -> (r: Option<(u64, usize)>)
    ensures
        match r {
            Some((v, p)) => parse_u64(b@, pos as int) == Some((v, p as int)),
            None => parse_u64(b@, pos as int) is None,
        },
{
    if pos <= b.len() && b.len() - pos >= 8 {
        let s = slice_subrange(b.as_slice(), pos, pos + 8);
        let v = u64_from_le_bytes(s);
        Some((v, pos + 8))
    } else {
        None
    }
}

pub fn take_bool(b: &Vec<u8>, pos: usize) -> (r: Option<(bool, usize)>)
    ensures
        match r {
            Some((v, p)) => parse_bool(b@, pos as int) == Some((v, p as int)),
            None => parse_bool(b@, pos as int) is None,
        },
{
    if pos < b.len() {
        let byte = b[pos];
        if byte == 0u8 {
            Some((false, pos + 1))
        } else if byte == 1u8 {
            Some((true, pos + 1))
        } else {
            None
        }
    } else {
        None
    }
}

pub fn take_bytes(b: &Vec<u8>, pos: usize) -> (r: Option<(Vec<u8>, usize)>)
    ensures
        match r {
            Some((v, p)) => parse_bytes(b@, pos as int) == Some((v@, p as int)),
            None => parse_bytes(b@, pos as int) is None,
        },
{
    match take_u64(b, pos) {
        None => None,
        Some((n, p)) => {
            if n <= (b.len() - p) as u64 {
                let n_us = n as usize;
                let s = slice_subrange(b.as_slice(), p, p + n_us);
                Some((slice_to_vec(s), p + n_us))
            } else {
                None
            }
        },
    }
}

pub fn put_opt_bytes(out: &mut Vec<u8>, b: &Option<Vec<u8>>)
    ensures
        final(out)@ == old(out)@ + wire_opt_bytes(match *b {
            None => None,
            Some(ref bb) => Some(bb@),
        }),
{
    match b {
        None => {
            put_bool(out, false);
        },
        Some(bb) => {
            put_bool(out, true);
            put_bytes(out, bb);
        },
    }
    assert(out@ =~= old(out)@ + wire_opt_bytes(match *b {
        None => None,
        Some(ref bb) => Some(bb@),
    }));
}

pub fn take_opt_bytes(b: &Vec<u8>, pos: usize) -> (r: Option<(Option<Vec<u8>>, usize)>)
    ensures
        match r {
            Some((v, p)) => parse_opt_bytes(b@, pos as int) == Some(
                (
                    match v {
                        None => None,
                        Some(vv) => Some(vv@),
                    },
                    p as int,
                ),
            ),
            None => parse_opt_bytes(b@, pos as int) is None,
        },
{
    match take_bool(b, pos) {
        None => None,
        Some((present, p)) => {
            if !present {
                Some((None, p))
            } else {
                match take_bytes(b, p) {
                    None => None,
                    Some((x, p2)) => Some((Some(x), p2)),
                }
            }
        },
    }
}

pub fn take_opt_height(b: &Vec<u8>, pos: usize) -> (r: Option<(Option<Height>, usize)>)
    ensures
        match r {
            Some((v, p)) => parse_opt_height(b@, pos as int) == Some((v, p as int)),
            None => parse_opt_height(b@, pos as int) is None,
        },
{
    match take_bool(b, pos) {
        None => None,
        Some((present, p)) => {
            if !present {
                Some((None, p))
            } else {
                match take_u64(b, p) {
                    None => None,
                    Some((rn, p2)) => match take_u64(b, p2) {
                        None => None,
                        Some((rh, p3)) => Some(
                            (Some(Height { revision_number: rn, revision_height: rh }), p3),
                        ),
                    },
                }
            }
        },
    }
}

} // verus!
