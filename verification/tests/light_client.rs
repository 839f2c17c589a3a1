//! The verification protocol: fetch plans, fetched-data judgement, and
//! the end-to-end scenarios.

use celo_relayer::celo_state::CeloClientState;
use celo_relayer::client_state::{AnyClientState, ClientState};
use celo_relayer::compat::{NativeConsensus, NativeHeader};
use celo_relayer::error::{ClientType, Error};
use celo_relayer::height::Height;
use celo_relayer::identifier::ChainId;
use celo_relayer::light_client::{
    collect_consensuses, collect_headers, FetchedHeader, FetchedSnapshot, LightClient, Verified,
};

fn native_client_state() -> CeloClientState {
    CeloClientState {
        epoch_size: 17280,
        allowed_clock_skew: 5,
        trusting_period: 86400,
        verify_epoch_headers: true,
        verify_non_epoch_headers: true,
        verify_header_timestamp: false,
        allow_update_after_expiry: false,
        allow_update_after_misbehavior: false,
        upgrade_path: vec![],
    }
}

fn wasm_client_state(revision: u64) -> AnyClientState {
    AnyClientState::Wasm(ClientState {
        data: native_client_state().encode(),
        code_id: vec![0xab],
        chain_id: ChainId::new(b"celo".to_vec(), revision),
        latest_height: Height::new(revision, 10),
        is_frozen: false,
    })
}

fn native_header(number: u64) -> NativeHeader {
    NativeHeader { number, time: 1000 + number, encoding: vec![number as u8, 0xee] }
}

#[test]
fn scenario_a_two_intermediate_heights() {
    // trusted (0,10), target (0,13): supporting heights are 11 and 12.
    let lc = LightClient::new(0);
    let plan = lc
        .verify_request(Height::new(0, 10), Height::new(0, 13), &wasm_client_state(0))
        .unwrap();
    assert_eq!(plan, vec![11, 12]);

    let headers = collect_headers(
        vec![
            FetchedHeader::Fetched(native_header(11)),
            FetchedHeader::Fetched(native_header(12)),
        ],
        FetchedHeader::Fetched(native_header(13)),
    )
    .unwrap();
    let wrapped = lc.header_and_minimal_set_assemble(0, headers);
    assert_eq!(wrapped.target.height, Height::new(0, 13));
    let support_heights: Vec<Height> =
        wrapped.supporting.iter().map(|h| h.height).collect();
    assert_eq!(support_heights, vec![Height::new(0, 11), Height::new(0, 12)]);
}

#[test]
fn scenario_b_adjacent_heights_need_no_support() {
    // trusted (0,10), target (0,11): empty supporting set.
    let lc = LightClient::new(0);
    let plan = lc
        .verify_request(Height::new(0, 10), Height::new(0, 11), &wasm_client_state(0))
        .unwrap();
    assert!(plan.is_empty());

    let headers =
        collect_headers(vec![], FetchedHeader::Fetched(native_header(11))).unwrap();
    let wrapped = lc.header_and_minimal_set_assemble(0, headers);
    assert_eq!(wrapped.target.height, Height::new(0, 11));
    assert!(wrapped.supporting.is_empty());
}

#[test]
fn scenario_c_revision_mismatch_is_immediate() {
    // trusted (1,5), target (2,9): rejected before any fetch is planned.
    let lc = LightClient::new(1);
    let r = lc.verify_request(Height::new(1, 5), Height::new(2, 9), &wasm_client_state(1));
    assert_eq!(r, Err(Error::RevisionMismatch));
}

#[test]
fn configured_revision_must_match_too() {
    let lc = LightClient::new(3);
    let r = lc.verify_request(Height::new(0, 5), Height::new(0, 9), &wasm_client_state(0));
    assert_eq!(r, Err(Error::RevisionMismatch));
}

#[test]
fn genesis_target_needs_no_support() {
    // target height zero: empty supporting set whatever the trusted height.
    let lc = LightClient::new(0);
    let plan = lc
        .verify_request(Height::new(0, 77), Height::new(0, 0), &wasm_client_state(0))
        .unwrap();
    assert!(plan.is_empty());
}

#[test]
fn interval_count_is_gap_minus_one() {
    // target = trusted + k: the open interval holds k - 1 heights.
    let lc = LightClient::new(0);
    for k in 2u64..6 {
        let plan = lc
            .verify_request(Height::new(0, 10), Height::new(0, 10 + k), &wasm_client_state(0))
            .unwrap();
        assert_eq!(plan.len() as u64, k - 1);
        let expected: Vec<u64> = (11..10 + k).collect();
        assert_eq!(plan, expected);
    }
}

#[test]
fn non_wasm_client_state_is_a_type_mismatch() {
    let lc = LightClient::new(0);
    let r = lc.verify_request(
        Height::new(0, 10),
        Height::new(0, 12),
        &AnyClientState::Other(ClientType::Tendermint),
    );
    assert_eq!(
        r,
        Err(Error::ClientTypeMismatch {
            expected: ClientType::Wasm,
            got: ClientType::Tendermint,
        })
    );
}

#[test]
fn undecodable_payload_is_a_type_mismatch() {
    let lc = LightClient::new(0);
    let bad = AnyClientState::Wasm(ClientState {
        data: vec![9, 9, 9],
        code_id: vec![],
        chain_id: ChainId::new(b"celo".to_vec(), 0),
        latest_height: Height::new(0, 10),
        is_frozen: false,
    });
    let r = lc.verify_request(Height::new(0, 10), Height::new(0, 12), &bad);
    assert_eq!(
        r,
        Err(Error::ClientTypeMismatch { expected: ClientType::Wasm, got: ClientType::Wasm })
    );
}

#[test]
fn missing_supporting_header_fails_the_batch() {
    // no partial success: a gap in the supporting set is a typed
    // not-found, never a shorter list
    let r = collect_headers(
        vec![
            FetchedHeader::Fetched(native_header(11)),
            FetchedHeader::Missing,
            FetchedHeader::Fetched(native_header(13)),
        ],
        FetchedHeader::Fetched(native_header(14)),
    );
    match r {
        Err(Error::NotFound(_)) => {}
        other => panic!("expected not-found, got {:?}", other),
    }
}

#[test]
fn complete_supporting_batch_is_kept_in_order() {
    let v = collect_headers(
        vec![
            FetchedHeader::Fetched(native_header(11)),
            FetchedHeader::Fetched(native_header(12)),
        ],
        FetchedHeader::Fetched(native_header(13)),
    )
    .unwrap();
    assert_eq!(v.supporting, vec![native_header(11), native_header(12)]);
    assert_eq!(v.target, native_header(13));
}

#[test]
fn missing_supporting_snapshot_fails_the_batch() {
    let r = collect_consensuses(
        vec![
            FetchedSnapshot::Fetched(NativeConsensus { encoding: vec![11] }),
            FetchedSnapshot::Missing,
        ],
        FetchedSnapshot::Fetched(NativeConsensus { encoding: vec![13] }),
    );
    match r {
        Err(Error::NotFound(_)) => {}
        other => panic!("expected not-found, got {:?}", other),
    }
}

#[test]
fn invalid_supporting_header_fails_the_batch() {
    let r = collect_headers(
        vec![FetchedHeader::Fetched(native_header(11)), FetchedHeader::Invalid],
        FetchedHeader::Fetched(native_header(13)),
    );
    match r {
        Err(Error::Decode(_)) => {}
        other => panic!("expected a conversion error, got {:?}", other),
    }
}

#[test]
fn missing_target_header_is_not_found() {
    let r = collect_headers(vec![], FetchedHeader::Missing);
    match r {
        Err(Error::NotFound(_)) => {}
        other => panic!("expected not-found, got {:?}", other),
    }
}

#[test]
fn missing_target_snapshot_is_not_found() {
    let r = collect_consensuses(vec![], FetchedSnapshot::Missing);
    match r {
        Err(Error::NotFound(_)) => {}
        other => panic!("expected not-found, got {:?}", other),
    }
}

#[test]
fn blocks_pair_headers_with_snapshots() {
    let lc = LightClient::new(0);
    let headers = Verified {
        target: native_header(13),
        supporting: vec![native_header(11), native_header(12)],
    };
    let consensuses = collect_consensuses(
        vec![
            FetchedSnapshot::Fetched(NativeConsensus { encoding: vec![11] }),
            FetchedSnapshot::Fetched(NativeConsensus { encoding: vec![12] }),
        ],
        FetchedSnapshot::Fetched(NativeConsensus { encoding: vec![13] }),
    )
    .unwrap();
    let blocks = lc.verify_assemble(headers, consensuses);
    assert_eq!(blocks.target.header, native_header(13));
    assert_eq!(blocks.target.consensus_state.encoding, vec![13]);
    assert_eq!(blocks.supporting.len(), 2);
    assert_eq!(blocks.supporting[0].header, native_header(11));
    assert_eq!(blocks.supporting[0].consensus_state.encoding, vec![11]);
    assert_eq!(blocks.supporting[1].header, native_header(12));
    assert_eq!(blocks.supporting[1].consensus_state.encoding, vec![12]);
}

#[test]
fn misbehaviour_check_reports_unsupported() {
    let lc = LightClient::new(0);
    let update = celo_relayer::light_client::UpdateClient {
        client_id: b"client-7".to_vec(),
        consensus_height: Height::new(0, 4),
    };
    match lc.check_misbehaviour(&update, &wasm_client_state(0)) {
        Err(Error::Unsupported(_)) => {}
        other => panic!("expected unsupported, got {:?}", other),
    }
}
