//! The chain endpoint: building envelopes, query guards, submission and
//! liveness.

use celo_relayer::celo_state::CeloClientState;
use celo_relayer::chain::{AnyMessage, CeloChain, CeloChainConfig, HealthCheck};
use celo_relayer::client_state::AnyClientState;
use celo_relayer::compat::{CeloBlock, NativeConsensus, NativeHeader};
use celo_relayer::error::Error;
use celo_relayer::height::Height;
use celo_relayer::identifier::ChainId;
use celo_relayer::light_client::LightClient;

fn config(code_id: &str) -> CeloChainConfig {
    CeloChainConfig {
        id: ChainId::new(b"celo".to_vec(), 1),
        code_id: String::from(code_id),
        epoch_size: 17280,
        allowed_clock_skew: 5,
        trusting_period: 86400,
        verify_epoch_headers: true,
        verify_non_epoch_headers: true,
        verify_header_timestamp: false,
        allow_update_after_expiry: false,
        allow_update_after_misbehavior: false,
        upgrade_path: vec![b'u'],
    }
}

fn block() -> CeloBlock {
    CeloBlock {
        header: NativeHeader { number: 42, time: 1234567, encoding: vec![0xde, 0xad] },
        consensus_state: NativeConsensus { encoding: vec![0xbe, 0xef] },
    }
}

#[test]
fn build_client_state_decodes_the_configured_hex_id() {
    let chain = CeloChain::new(config("00ff10"));
    let c = chain.build_client_state(Height::new(1, 9)).unwrap();
    // the code id is the decoded bytes, not the hexadecimal text
    assert_eq!(c.code_id, vec![0x00, 0xff, 0x10]);
    assert_eq!(c.code_id, hex::decode("00ff10").unwrap());
    assert_eq!(c.latest_height, Height::new(1, 9));
    assert_eq!(c.chain_id, ChainId::new(b"celo".to_vec(), 1));
    assert!(!c.is_frozen);
    // the payload is the configured chain-native client state, encoded
    let expected = CeloClientState {
        epoch_size: 17280,
        allowed_clock_skew: 5,
        trusting_period: 86400,
        verify_epoch_headers: true,
        verify_non_epoch_headers: true,
        verify_header_timestamp: false,
        allow_update_after_expiry: false,
        allow_update_after_misbehavior: false,
        upgrade_path: vec![b'u'],
    };
    assert_eq!(c.data, expected.encode());
}

#[test]
fn build_client_state_rejects_a_bad_hex_id() {
    let chain = CeloChain::new(config("not-hex"));
    assert_eq!(chain.build_client_state(Height::new(1, 9)), Err(Error::HexDecode));
}

#[test]
fn built_client_state_passes_verification() {
    // the state built by the endpoint is accepted by the light client
    let chain = CeloChain::new(config("00ff"));
    let c = chain.build_client_state(Height::new(1, 10)).unwrap();
    let lc = LightClient::new(1);
    let plan = lc
        .verify_request(Height::new(1, 10), Height::new(1, 12), &AnyClientState::Wasm(c))
        .unwrap();
    assert_eq!(plan, vec![11]);
}

#[test]
fn build_consensus_state_packages_the_block() {
    let chain = CeloChain::new(config("0a0b"));
    let c = chain.build_consensus_state(block()).unwrap();
    assert_eq!(c.data, vec![0xbe, 0xef]);
    assert_eq!(c.code_id, vec![0x0a, 0x0b]);
    assert_eq!(c.timestamp, 1234567);
    assert!(c.root.bytes.is_empty());
}

#[test]
fn build_consensus_state_rejects_odd_hex() {
    let chain = CeloChain::new(config("abc"));
    assert_eq!(chain.build_consensus_state(block()), Err(Error::HexDecode));
}

#[test]
fn build_header_request_guards_revisions() {
    let chain = CeloChain::new(config("00"));
    assert_eq!(
        chain.build_header_request(Height::new(1, 5), Height::new(2, 9)),
        Err(Error::RevisionMismatch)
    );
    assert_eq!(
        chain.build_header_request(Height::new(2, 5), Height::new(2, 9)),
        Err(Error::RevisionMismatch)
    );
    assert_eq!(
        chain.build_header_request(Height::new(1, 10), Height::new(1, 13)).unwrap(),
        vec![11, 12]
    );
}

#[test]
fn build_header_assemble_wraps_every_header() {
    let chain = CeloChain::new(config("00"));
    let fetched = celo_relayer::light_client::Verified {
        target: NativeHeader { number: 13, time: 3, encoding: vec![13] },
        supporting: vec![
            NativeHeader { number: 11, time: 1, encoding: vec![11] },
            NativeHeader { number: 12, time: 2, encoding: vec![12] },
        ],
    };
    let (target, supporting) = chain.build_header_assemble(Height::new(1, 10), fetched);
    assert_eq!(target.height, Height::new(1, 13));
    assert_eq!(target.data, vec![13]);
    assert_eq!(supporting.len(), 2);
    assert_eq!(supporting[0].height, Height::new(1, 11));
    assert_eq!(supporting[1].height, Height::new(1, 12));
}

#[test]
fn submission_is_an_unknown_message_type_error() {
    let mut chain = CeloChain::new(config("00"));
    let msgs = vec![AnyMessage {
        type_url: String::from("/ibc.core.client.v1.MsgCreateClient"),
        value: vec![1, 2],
    }];
    match chain.send_messages_and_wait_commit(msgs) {
        Err(Error::UnknownMessageType(url)) => {
            assert_eq!(url, "/ibc.core.client.v1.MsgCreateClient");
        }
        other => panic!("expected unknown-message-type, got {:?}", other),
    }
}

#[test]
fn query_guards_and_selection() {
    let chain = CeloChain::new(config("00"));
    assert_eq!(chain.raw_state_guard(Height::new(2, 9)), Err(Error::RevisionMismatch));
    assert_eq!(chain.raw_state_guard(Height::new(1, 9)), Ok(()));
    assert_eq!(chain.raw_state_select(true, vec![7, 8]).unwrap(), vec![7, 8]);
    match chain.raw_state_select(false, vec![]) {
        Err(Error::NotFound(_)) => {}
        other => panic!("expected not-found, got {:?}", other),
    }
    assert_eq!(
        chain.consensus_state_guard(Height::new(1, 4), Height::new(2, 9)),
        Err(Error::RevisionMismatch)
    );
    assert_eq!(chain.consensus_state_guard(Height::new(2, 4), Height::new(2, 9)), Ok(()));
}

#[test]
fn latest_height_uses_the_configured_revision() {
    let chain = CeloChain::new(config("00"));
    assert_eq!(chain.latest_height_of(555), Height::new(1, 555));
}

#[test]
fn health_is_reported_as_data() {
    let chain = CeloChain::new(config("00"));
    assert_eq!(chain.health_check_outcome(None), HealthCheck::Healthy);
    match chain.health_check_outcome(Some(String::from("connection refused"))) {
        HealthCheck::Unhealthy(reason) => assert_eq!(reason, "connection refused"),
        other => panic!("expected unhealthy, got {:?}", other),
    }
}

#[test]
fn unsupported_queries_say_so() {
    let chain = CeloChain::new(config("00"));
    assert!(matches!(chain.query_commitment_prefix(), Err(Error::Unsupported(_))));
    assert!(matches!(
        chain.query_upgraded_client_state(Height::new(1, 1)),
        Err(Error::Unsupported(_))
    ));
    assert!(matches!(
        chain.query_upgraded_consensus_state(Height::new(1, 1)),
        Err(Error::Unsupported(_))
    ));
}

#[test]
fn signer_identity_is_fixed() {
    let mut chain = CeloChain::new(config("00"));
    assert_eq!(chain.get_signer().unwrap().id, "this is a celo Signer");
}
