//! Round trips and decode errors of the envelope codec.

use celo_relayer::celo_state::CeloClientState;
use celo_relayer::client_state::{decode_client_state, encode_client_state, ClientState, RawClientState};
use celo_relayer::consensus_state::{
    decode_consensus_state, encode_consensus_state, ConsensusState, RawConsensusState,
};
use celo_relayer::commitment::CommitmentRoot;
use celo_relayer::error::CodecError;
use celo_relayer::header::{decode_header, encode_header, Header, RawHeader};
use celo_relayer::height::Height;
use celo_relayer::identifier::ChainId;

fn sample_client_state() -> ClientState {
    ClientState {
        data: vec![1, 2, 3, 4],
        code_id: vec![9, 9],
        chain_id: ChainId::new(b"celo".to_vec(), 1),
        latest_height: Height::new(1, 77),
        is_frozen: false,
    }
}

#[test]
fn client_state_round_trip() {
    let c = sample_client_state();
    let bytes = encode_client_state(&c);
    let back = decode_client_state(&bytes).unwrap();
    assert_eq!(back, c);
}

#[test]
fn client_state_round_trip_edge_values() {
    // empty payload, all-zero code id, frozen client
    let c = ClientState {
        data: vec![],
        code_id: vec![0, 0, 0, 0],
        chain_id: ChainId::new(b"other-chain".to_vec(), 7),
        latest_height: Height::new(7, 0),
        is_frozen: true,
    };
    let bytes = encode_client_state(&c);
    let back = decode_client_state(&bytes).unwrap();
    assert_eq!(back, c);
    assert!(back.is_frozen);
}

#[test]
fn client_state_missing_height_is_rejected() {
    let raw = RawClientState {
        data: vec![1],
        code_id: vec![2],
        latest_height: None,
        chain_id: ChainId::new(b"celo".to_vec(), 1),
        is_frozen: false,
    };
    let bytes = raw.encode();
    match decode_client_state(&bytes) {
        Err(CodecError::MissingRawClientState(_)) => {}
        other => panic!("expected a missing-height error, got {:?}", other),
    }
}

#[test]
fn client_state_malformed_bytes_are_rejected() {
    let bytes = vec![1, 2, 3];
    match decode_client_state(&bytes) {
        Err(CodecError::InvalidRawClientState(_)) => {}
        other => panic!("expected a malformed-bytes error, got {:?}", other),
    }
}

#[test]
fn client_state_trailing_garbage_is_rejected() {
    let mut bytes = encode_client_state(&sample_client_state());
    bytes.push(0);
    match decode_client_state(&bytes) {
        Err(CodecError::InvalidRawClientState(_)) => {}
        other => panic!("expected a malformed-bytes error, got {:?}", other),
    }
}

#[test]
fn consensus_state_round_trip() {
    let c = ConsensusState {
        data: vec![5, 6, 7],
        code_id: vec![0],
        timestamp: 1_600_000_000,
        root: CommitmentRoot { bytes: vec![0xaa, 0xbb] },
    };
    let bytes = encode_consensus_state(&c);
    let back = decode_consensus_state(&bytes).unwrap();
    assert_eq!(back, c);
}

#[test]
fn consensus_state_round_trip_empty_root() {
    let c = ConsensusState {
        data: vec![],
        code_id: vec![],
        timestamp: 0,
        root: CommitmentRoot { bytes: vec![] },
    };
    let bytes = encode_consensus_state(&c);
    let back = decode_consensus_state(&bytes).unwrap();
    assert_eq!(back, c);
}

#[test]
fn consensus_state_missing_root_is_rejected() {
    let raw = RawConsensusState { data: vec![1], code_id: vec![2], timestamp: 9, root: None };
    let bytes = raw.encode();
    match decode_consensus_state(&bytes) {
        Err(CodecError::MissingRawConsensusState(_)) => {}
        other => panic!("expected a missing-root error, got {:?}", other),
    }
}

#[test]
fn consensus_state_malformed_bytes_are_rejected() {
    match decode_consensus_state(&vec![0xff; 5]) {
        Err(CodecError::InvalidRawConsensusState(_)) => {}
        other => panic!("expected a malformed-bytes error, got {:?}", other),
    }
}

#[test]
fn header_round_trip() {
    let h = Header { height: Height::new(0, 13), data: vec![13, 14, 15] };
    let bytes = encode_header(&h);
    let back = decode_header(&bytes).unwrap();
    assert_eq!(back, h);
}

#[test]
fn header_round_trip_empty_data() {
    let h = Header { height: Height::new(4, 0), data: vec![] };
    let bytes = encode_header(&h);
    let back = decode_header(&bytes).unwrap();
    assert_eq!(back, h);
}

#[test]
fn header_missing_height_is_rejected() {
    let raw = RawHeader { data: vec![1, 2], height: None };
    let bytes = raw.encode();
    match decode_header(&bytes) {
        Err(CodecError::MissingRawClientState(_)) => {}
        other => panic!("expected a missing-height error, got {:?}", other),
    }
}

#[test]
fn header_malformed_bytes_are_rejected() {
    match decode_header(&vec![9]) {
        Err(CodecError::InvalidHeader(_)) => {}
        other => panic!("expected a malformed-bytes error, got {:?}", other),
    }
}

#[test]
fn celo_client_state_round_trip() {
    let c = CeloClientState {
        epoch_size: 17280,
        allowed_clock_skew: 5,
        trusting_period: 86400,
        verify_epoch_headers: true,
        verify_non_epoch_headers: false,
        verify_header_timestamp: true,
        allow_update_after_expiry: false,
        allow_update_after_misbehavior: true,
        upgrade_path: vec![b'u', b'p'],
    };
    let bytes = c.encode();
    let back = CeloClientState::decode(&bytes).unwrap();
    assert_eq!(back, c);
    assert!(CeloClientState::check_encoding(&bytes));
}

#[test]
fn celo_client_state_rejects_garbage() {
    assert!(!CeloClientState::check_encoding(&vec![1, 2, 3, 4]));
}
