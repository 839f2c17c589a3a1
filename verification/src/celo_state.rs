//! The chain-native light-client state of the committee-based chain: the
//! epoch parameters and verification toggles its on-chain verifier works
//! from. It travels inside the wrapped envelope's `data` field in the
//! deterministic binary form defined here; the light client accepts an
//! envelope only if its payload parses as this structure.

use vstd::prelude::*;
use crate::wire::{
    bytes_fit, lemma_auto_wire_lens, lemma_parse_bool_of_wire, lemma_parse_bytes_of_wire,
    lemma_parse_u64_of_wire, parse_bool, parse_bytes, parse_u64, put_bool, put_bytes, put_u64,
    take_bool, take_bytes, take_u64, wire_bool, wire_bytes, wire_u64,
};

verus! {

/// Epoch parameters and verification toggles of the committee chain.
#[derive(Debug, Clone, PartialEq, Eq)]
pub struct CeloClientState {
    pub epoch_size: u64,
    pub allowed_clock_skew: u64,
    pub trusting_period: u64,
    pub verify_epoch_headers: bool,
    pub verify_non_epoch_headers: bool,
    pub verify_header_timestamp: bool,
    pub allow_update_after_expiry: bool,
    pub allow_update_after_misbehavior: bool,
    pub upgrade_path: Vec<u8>,
}

#[verifier::ext_equal]
pub ghost struct CeloClientStateV {
    pub epoch_size: u64,
    pub allowed_clock_skew: u64,
    pub trusting_period: u64,
    pub verify_epoch_headers: bool,
    pub verify_non_epoch_headers: bool,
    pub verify_header_timestamp: bool,
    pub allow_update_after_expiry: bool,
    pub allow_update_after_misbehavior: bool,
    pub upgrade_path: Seq<u8>,
}

impl View for CeloClientState {
    type V = CeloClientStateV;

    open spec fn view(&self) -> CeloClientStateV {
        CeloClientStateV {
            epoch_size: self.epoch_size,
            allowed_clock_skew: self.allowed_clock_skew,
            trusting_period: self.trusting_period,
            verify_epoch_headers: self.verify_epoch_headers,
            verify_non_epoch_headers: self.verify_non_epoch_headers,
            verify_header_timestamp: self.verify_header_timestamp,
            allow_update_after_expiry: self.allow_update_after_expiry,
            allow_update_after_misbehavior: self.allow_update_after_misbehavior,
            upgrade_path: self.upgrade_path@,
        }
    }
}

pub open spec fn celo_client_state_fits(c: CeloClientStateV) -> bool {
    bytes_fit(c.upgrade_path)
}

pub open spec fn celo_client_state_wire(c: CeloClientStateV) -> Seq<u8> {
    wire_u64(c.epoch_size) + wire_u64(c.allowed_clock_skew) + wire_u64(c.trusting_period)
        + wire_bool(c.verify_epoch_headers) + wire_bool(c.verify_non_epoch_headers) + wire_bool(
        c.verify_header_timestamp,
    ) + wire_bool(c.allow_update_after_expiry) + wire_bool(c.allow_update_after_misbehavior)
        + wire_bytes(c.upgrade_path)
}

pub open spec fn parse_celo_client_state(b: Seq<u8>) -> Option<CeloClientStateV> {
    match parse_u64(b, 0) {
        None => None,
        Some((epoch_size, p1)) => match parse_u64(b, p1) {
            None => None,
            Some((allowed_clock_skew, p2)) => match parse_u64(b, p2) {
                None => None,
                Some((trusting_period, p3)) => match parse_bool(b, p3) {
                    None => None,
                    Some((verify_epoch_headers, p4)) => match parse_bool(b, p4) {
                        None => None,
                        Some((verify_non_epoch_headers, p5)) => match parse_bool(b, p5) {
                            None => None,
                            Some((verify_header_timestamp, p6)) => match parse_bool(b, p6) {
                                None => None,
                                Some((allow_update_after_expiry, p7)) => match parse_bool(b, p7) {
                                    None => None,
                                    Some((allow_update_after_misbehavior, p8)) => match parse_bytes(
                                        b,
                                        p8,
                                    ) {
                                        None => None,
                                        Some((upgrade_path, p9)) => {
                                            if p9 == b.len() {
                                                Some(
                                                    CeloClientStateV {
                                                        epoch_size,
                                                        allowed_clock_skew,
                                                        trusting_period,
                                                        verify_epoch_headers,
                                                        verify_non_epoch_headers,
                                                        verify_header_timestamp,
                                                        allow_update_after_expiry,
                                                        allow_update_after_misbehavior,
                                                        upgrade_path,
                                                    },
                                                )
                                            } else {
                                                None
                                            }
                                        },
                                    },
                                },
                            },
                        },
                    },
                },
            },
        },
    }
}

/// Does `b` hold the chain-native client state of this chain family?
pub open spec fn celo_client_state_decodable(b: Seq<u8>) -> bool {
    parse_celo_client_state(b) is Some
}

/// Parse positions of the three leading `u64` fields.
#[verifier::rlimit(100)]
#[verifier::spinoff_prover]
proof fn lemma_celo_wire_numbers(c: CeloClientStateV)
    ensures
        parse_u64(celo_client_state_wire(c), 0) == Some((c.epoch_size, 8int)),
        parse_u64(celo_client_state_wire(c), 8) == Some((c.allowed_clock_skew, 16int)),
        parse_u64(celo_client_state_wire(c), 16) == Some((c.trusting_period, 24int)),
{
    lemma_auto_wire_lens();
    let f1 = wire_u64(c.epoch_size);
    let f2 = wire_u64(c.allowed_clock_skew);
    let f3 = wire_u64(c.trusting_period);
    let f4 = wire_bool(c.verify_epoch_headers);
    let f5 = wire_bool(c.verify_non_epoch_headers);
    let f6 = wire_bool(c.verify_header_timestamp);
    let f7 = wire_bool(c.allow_update_after_expiry);
    let f8 = wire_bool(c.allow_update_after_misbehavior);
    let f9 = wire_bytes(c.upgrade_path);
    let b = celo_client_state_wire(c);
    let e = Seq::<u8>::empty();
    assert(b =~= e + f1 + (f2 + f3 + f4 + f5 + f6 + f7 + f8 + f9));
    lemma_parse_u64_of_wire(e, c.epoch_size, f2 + f3 + f4 + f5 + f6 + f7 + f8 + f9);
    assert(b =~= (e + f1) + f2 + (f3 + f4 + f5 + f6 + f7 + f8 + f9));
    lemma_parse_u64_of_wire(e + f1, c.allowed_clock_skew, f3 + f4 + f5 + f6 + f7 + f8 + f9);
    assert(b =~= (e + f1 + f2) + f3 + (f4 + f5 + f6 + f7 + f8 + f9));
    lemma_parse_u64_of_wire(e + f1 + f2, c.trusting_period, f4 + f5 + f6 + f7 + f8 + f9);
}

/// Parse positions of the five toggle bytes.
#[verifier::rlimit(100)]
#[verifier::spinoff_prover]
proof fn lemma_celo_wire_flags(c: CeloClientStateV)
    ensures
        parse_bool(celo_client_state_wire(c), 24) == Some((c.verify_epoch_headers, 25int)),
        parse_bool(celo_client_state_wire(c), 25) == Some((c.verify_non_epoch_headers, 26int)),
        parse_bool(celo_client_state_wire(c), 26) == Some((c.verify_header_timestamp, 27int)),
        parse_bool(celo_client_state_wire(c), 27) == Some((c.allow_update_after_expiry, 28int)),
        parse_bool(celo_client_state_wire(c), 28) == Some(
            (c.allow_update_after_misbehavior, 29int),
        ),
{
    lemma_auto_wire_lens();
    let f1 = wire_u64(c.epoch_size);
    let f2 = wire_u64(c.allowed_clock_skew);
    let f3 = wire_u64(c.trusting_period);
    let f4 = wire_bool(c.verify_epoch_headers);
    let f5 = wire_bool(c.verify_non_epoch_headers);
    let f6 = wire_bool(c.verify_header_timestamp);
    let f7 = wire_bool(c.allow_update_after_expiry);
    let f8 = wire_bool(c.allow_update_after_misbehavior);
    let f9 = wire_bytes(c.upgrade_path);
    let b = celo_client_state_wire(c);
    let e = Seq::<u8>::empty();
    assert(b =~= (e + f1 + f2 + f3) + f4 + (f5 + f6 + f7 + f8 + f9));
    lemma_parse_bool_of_wire(e + f1 + f2 + f3, c.verify_epoch_headers, f5 + f6 + f7 + f8 + f9);
    assert(b =~= (e + f1 + f2 + f3 + f4) + f5 + (f6 + f7 + f8 + f9));
    lemma_parse_bool_of_wire(
        e + f1 + f2 + f3 + f4,
        c.verify_non_epoch_headers,
        f6 + f7 + f8 + f9,
    );
    assert(b =~= (e + f1 + f2 + f3 + f4 + f5) + f6 + (f7 + f8 + f9));
    lemma_parse_bool_of_wire(
        e + f1 + f2 + f3 + f4 + f5,
        c.verify_header_timestamp,
        f7 + f8 + f9,
    );
    assert(b =~= (e + f1 + f2 + f3 + f4 + f5 + f6) + f7 + (f8 + f9));
    lemma_parse_bool_of_wire(
        e + f1 + f2 + f3 + f4 + f5 + f6,
        c.allow_update_after_expiry,
        f8 + f9,
    );
    assert(b =~= (e + f1 + f2 + f3 + f4 + f5 + f6 + f7) + f8 + f9);
    lemma_parse_bool_of_wire(
        e + f1 + f2 + f3 + f4 + f5 + f6 + f7,
        c.allow_update_after_misbehavior,
        f9,
    );
}

/// Parse position of the trailing upgrade path, and the total length.
#[verifier::rlimit(100)]
#[verifier::spinoff_prover]
proof fn lemma_celo_wire_tail(c: CeloClientStateV)
    requires
        celo_client_state_fits(c),
    ensures
        parse_bytes(celo_client_state_wire(c), 29) == Some(
            (c.upgrade_path, 37 + c.upgrade_path.len() as int),
        ),
        celo_client_state_wire(c).len() == 37 + c.upgrade_path.len(),
{
    lemma_auto_wire_lens();
    let f1 = wire_u64(c.epoch_size);
    let f2 = wire_u64(c.allowed_clock_skew);
    let f3 = wire_u64(c.trusting_period);
    let f4 = wire_bool(c.verify_epoch_headers);
    let f5 = wire_bool(c.verify_non_epoch_headers);
    let f6 = wire_bool(c.verify_header_timestamp);
    let f7 = wire_bool(c.allow_update_after_expiry);
    let f8 = wire_bool(c.allow_update_after_misbehavior);
    let f9 = wire_bytes(c.upgrade_path);
    let b = celo_client_state_wire(c);
    let e = Seq::<u8>::empty();
    assert(b =~= (e + f1 + f2 + f3 + f4 + f5 + f6 + f7 + f8) + f9 + e);
    lemma_parse_bytes_of_wire(e + f1 + f2 + f3 + f4 + f5 + f6 + f7 + f8, c.upgrade_path, e);
}

/// Parsing the wire form of any chain-native client state yields it back
/// exactly.
#[verifier::rlimit(100)]
#[verifier::spinoff_prover]
pub proof fn lemma_celo_client_state_round_trip(c: CeloClientStateV)
    requires
        celo_client_state_fits(c),
    ensures
        parse_celo_client_state(celo_client_state_wire(c)) == Some(c),
{
    let b = celo_client_state_wire(c);
    lemma_celo_wire_numbers(c);
    lemma_celo_wire_flags(c);
    lemma_celo_wire_tail(c);
    assert(parse_celo_client_state(b)->0 =~= c);
}

impl CeloClientState {
    pub fn encode(&self) -> (out: Vec<u8>)
        ensures
            out@ == celo_client_state_wire(self@),
    {
        let mut out: Vec<u8> = Vec::new();
        put_u64(&mut out, self.epoch_size);
        put_u64(&mut out, self.allowed_clock_skew);
        put_u64(&mut out, self.trusting_period);
        put_bool(&mut out, self.verify_epoch_headers);
        put_bool(&mut out, self.verify_non_epoch_headers);
        put_bool(&mut out, self.verify_header_timestamp);
        put_bool(&mut out, self.allow_update_after_expiry);
        put_bool(&mut out, self.allow_update_after_misbehavior);
        put_bytes(&mut out, &self.upgrade_path);
        proof {
            assert(out@ =~= celo_client_state_wire(self@));
        }
        out
    }

    pub fn decode(b: &Vec<u8>) -> (r: Option<CeloClientState>)
        ensures
            match r {
                Some(c) => parse_celo_client_state(b@) == Some(c@),
                None => parse_celo_client_state(b@) is None,
            },
    {
        match take_u64(b, 0) {
            None => None,
            Some((epoch_size, p1)) => match take_u64(b, p1) {
                None => None,
                Some((allowed_clock_skew, p2)) => match take_u64(b, p2) {
                    None => None,
                    Some((trusting_period, p3)) => match take_bool(b, p3) {
                        None => None,
                        Some((verify_epoch_headers, p4)) => match take_bool(b, p4) {
                            None => None,
                            Some((verify_non_epoch_headers, p5)) => match take_bool(b, p5) {
                                None => None,
                                Some((verify_header_timestamp, p6)) => match take_bool(b, p6) {
                                    None => None,
                                    Some((allow_update_after_expiry, p7)) => match take_bool(
                                        b,
                                        p7,
                                    ) {
                                        None => None,
                                        Some((allow_update_after_misbehavior, p8)) => match take_bytes(
                                            b,
                                            p8,
                                        ) {
                                            None => None,
                                            Some((upgrade_path, p9)) => {
                                                if p9 == b.len() {
                                                    Some(
                                                        CeloClientState {
                                                            epoch_size,
                                                            allowed_clock_skew,
                                                            trusting_period,
                                                            verify_epoch_headers,
                                                            verify_non_epoch_headers,
                                                            verify_header_timestamp,
                                                            allow_update_after_expiry,
                                                            allow_update_after_misbehavior,
                                                            upgrade_path,
                                                        },
                                                    )
                                                } else {
                                                    None
                                                }
                                            },
                                        },
                                    },
                                },
                            },
                        },
                    },
                },
            },
        }
    }

    /// Does `b` parse as a chain-native client state?
    pub fn check_encoding(b: &Vec<u8>) -> (r: bool)
        ensures
            r == celo_client_state_decodable(b@),
    {
        match CeloClientState::decode(b) {
            Some(_) => true,
            None => false,
        }
    }
}

} // verus!
