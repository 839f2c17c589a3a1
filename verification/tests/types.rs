//! The envelope types' accessors and family tags.

use celo_relayer::client_state::{AnyClientState, ClientState};
use celo_relayer::commitment::CommitmentRoot;
use celo_relayer::consensus_state::{AnyConsensusState, ConsensusState};
use celo_relayer::error::ClientType;
use celo_relayer::header::{AnyHeader, Header};
use celo_relayer::height::Height;
use celo_relayer::identifier::ChainId;

#[test]
fn client_state_accessors() {
    let c = ClientState {
        data: vec![1],
        code_id: vec![2],
        chain_id: ChainId::new(b"celo".to_vec(), 1),
        latest_height: Height::new(1, 8),
        is_frozen: true,
    };
    assert_eq!(c.client_type(), ClientType::Wasm);
    assert_eq!(*c.chain_id(), ChainId::new(b"celo".to_vec(), 1));
    assert_eq!(c.latest_height(), Height::new(1, 8));
    assert!(c.is_frozen());
    let any = c.clone().wrap_any();
    assert_eq!(any.client_type(), ClientType::Wasm);
    assert_eq!(any, AnyClientState::Wasm(c));
    assert_eq!(AnyClientState::Other(ClientType::Tendermint).client_type(), ClientType::Tendermint);
}

#[test]
fn consensus_state_accessors() {
    let c = ConsensusState {
        data: vec![3],
        code_id: vec![4],
        timestamp: 99,
        root: CommitmentRoot::from_bytes(&[7, 8]),
    };
    assert_eq!(c.client_type(), ClientType::Wasm);
    assert_eq!(c.root().bytes, vec![7, 8]);
    assert_eq!(c.root().clone().into_vec(), vec![7, 8]);
    let any = c.clone().wrap_any();
    assert_eq!(any, AnyConsensusState::Wasm(c));
}

#[test]
fn header_accessors() {
    let h = Header { height: Height::new(2, 3), data: vec![5] };
    assert_eq!(h.client_type(), ClientType::Wasm);
    assert_eq!(h.height(), Height::new(2, 3));
    let any = h.clone().wrap_any();
    assert_eq!(any, AnyHeader::Wasm(h));
}

#[test]
fn chain_id_carries_its_revision() {
    let id = ChainId::new(b"celo".to_vec(), 5);
    assert_eq!(id.version(), 5);
    assert_eq!(id.clone_id(), id);
}
