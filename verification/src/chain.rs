//! The chain endpoint of the committee-based chain: the uniform contract a
//! relayer drives a chain through.
//!
//! Everything decided here is a pure function of the configuration and of
//! values the transport layer has already fetched; the identity checks run
//! before any network traffic. Operations this adapter does not offer
//! report a typed unsupported outcome rather than crashing, so the
//! orchestration layer can skip them per chain.

use vstd::prelude::*;
use vstd::string::StringExecFns;
use crate::celo_state::{
    celo_client_state_decodable, celo_client_state_wire, lemma_celo_client_state_round_trip,
    CeloClientState, CeloClientStateV,
};
use crate::client_state::ClientState;
use crate::compat::{build_wasm_consensus_state, CeloBlock, NativeHeader};
use crate::consensus_state::ConsensusState;
use crate::error::Error;
use crate::header::Header;
use crate::height::Height;
use crate::hexstr::{hex_bytes, is_hex_string};
use crate::identifier::ChainId;
use crate::light_client::{spec_supporting_heights, supporting_heights, wrap_headers, Verified};
use crate::wire::clone_bytes;

verus! {

/// Chain liveness, reported as data: the health check itself never fails.
#[derive(Debug, Clone, PartialEq, Eq)]
pub enum HealthCheck {
    Healthy,
    Unhealthy(String),
}

/// The transaction signer's identity, as the key store names it.
#[derive(Debug, Clone, PartialEq, Eq)]
pub struct Signer {
    pub id: String,
}

/// An opaque protocol message: a type URL and its encoded payload.
#[derive(Debug, Clone, PartialEq, Eq)]
pub struct AnyMessage {
    pub type_url: String,
    pub value: Vec<u8>,
}

/// A transaction pre-check response.
#[derive(Debug, Clone, PartialEq, Eq)]
pub struct TxResponse {
    pub code: u32,
    pub log: String,
}

/// An event the chain reports to the relayer.
#[derive(Debug, Clone, PartialEq, Eq)]
pub enum IbcEvent {
    NewBlock(Height),
}

/// What this endpoint is configured with: the chain identity, the
/// verifier code id (hexadecimal), and the chain-native client-state
/// parameters a new client is created from.
#[derive(Debug, Clone, PartialEq, Eq)]
pub struct CeloChainConfig {
    pub id: ChainId,
    pub code_id: String,
    pub epoch_size: u64,
    pub allowed_clock_skew: u64,
    pub trusting_period: u64,
    pub verify_epoch_headers: bool,
    pub verify_non_epoch_headers: bool,
    pub verify_header_timestamp: bool,
    pub allow_update_after_expiry: bool,
    pub allow_update_after_misbehavior: bool,
    pub upgrade_path: Vec<u8>,
}

/// The chain-native client state the configuration describes.
pub open spec fn spec_config_client_state(c: CeloChainConfig) -> CeloClientStateV {
    CeloClientStateV {
        epoch_size: c.epoch_size,
        allowed_clock_skew: c.allowed_clock_skew,
        trusting_period: c.trusting_period,
        verify_epoch_headers: c.verify_epoch_headers,
        verify_non_epoch_headers: c.verify_non_epoch_headers,
        verify_header_timestamp: c.verify_header_timestamp,
        allow_update_after_expiry: c.allow_update_after_expiry,
        allow_update_after_misbehavior: c.allow_update_after_misbehavior,
        upgrade_path: c.upgrade_path@,
    }
}

/// The chain endpoint: the decisions of the uniform chain contract, as a
/// function of this configuration.
pub struct CeloChain {
    pub config: CeloChainConfig,
}

impl CeloChain {
    pub fn new(config: CeloChainConfig) -> (r: CeloChain)
        ensures
            r.config == config,
    {
        CeloChain { config }
    }

    /// The chain this endpoint serves.
    pub fn id(&self) -> (r: &ChainId)
        ensures
            r@ == self.config.id@,
    {
        &self.config.id
    }

    /// Report liveness as data: a reachable chain is healthy, a transport
    /// failure makes it unhealthy with the failure's reason. The check
    /// itself never fails.
    pub fn health_check_outcome(&self, failure: Option<String>) -> (r: HealthCheck)
        ensures
            match failure {
                None => r == HealthCheck::Healthy,
                Some(reason) => (r matches HealthCheck::Unhealthy(m) && m@ == reason@),
            },
    {
        match failure {
            None => HealthCheck::Healthy,
            Some(reason) => HealthCheck::Unhealthy(reason),
        }
    }

    /// The signer identity this adapter hands out.
    pub fn get_signer(&mut self) -> (r: Result<Signer, Error>)
        ensures
            *final(self) == *old(self),
            r matches Ok(s) && s.id@ == "this is a celo Signer"@,
    {
        Ok(Signer { id: String::from_str("this is a celo Signer") })
    }

    /// This adapter cannot route any message type yet: submission is a
    /// hard, unrecoverable error naming the first message's type.
    pub fn send_messages_and_wait_commit(&mut self, proto_msgs: Vec<AnyMessage>) -> (r: Result<
        Vec<IbcEvent>,
        Error,
    >)
        ensures
            *final(self) == *old(self),
            proto_msgs@.len() > 0 ==> (r matches Err(Error::UnknownMessageType(m)) && m@
                == proto_msgs@[0].type_url@),
            proto_msgs@.len() == 0 ==> (r matches Err(Error::UnknownMessageType(m)) && m@
                == Seq::<char>::empty()),
    {
        if proto_msgs.len() > 0 {
            Err(Error::UnknownMessageType(proto_msgs[0].type_url.clone()))
        } else {
            Err(Error::UnknownMessageType(String::new()))
        }
    }

    /// Transaction pre-checking is not offered by this adapter.
    pub fn send_messages_and_wait_check_tx(&mut self, proto_msgs: Vec<AnyMessage>) -> (r: Result<
        Vec<TxResponse>,
        Error,
    >)
        ensures
            *final(self) == *old(self),
            r matches Err(Error::Unsupported(_)),
    {
        let _ = proto_msgs;
        Err(Error::Unsupported(String::from_str("send_messages_and_wait_check_tx")))
    }

    /// The chain's latest height: the fetched block number under the
    /// configured revision.
    pub fn latest_height_of(&self, block_number: u64) -> (r: Height)
        ensures
            r == (Height {
                revision_number: self.config.id@.version,
                revision_height: block_number,
            }),
    {
        Height::new(self.config.id.version(), block_number)
    }

    /// The identity check of a state query: a height of another revision
    /// is rejected before any network traffic.
    pub fn raw_state_guard(&self, height: Height) -> (r: Result<(), Error>)
        ensures
            height.revision_number != self.config.id@.version ==> r == Err::<(), Error>(
                Error::RevisionMismatch,
            ),
            height.revision_number == self.config.id@.version ==> r == Ok::<(), Error>(()),
    {
        if height.revision_number != self.config.id.version() {
            Err(Error::RevisionMismatch)
        } else {
            Ok(())
        }
    }

    /// Judge a state query's outcome: an absent slot is a typed not-found,
    /// distinct from a transport failure; a present slot hands its bytes
    /// on for decoding.
    pub fn raw_state_select(&self, present: bool, state_bytes: Vec<u8>) -> (r: Result<
        Vec<u8>,
        Error,
    >)
        ensures
            present ==> (r matches Ok(b) && b@ == state_bytes@),
            !present ==> (r matches Err(Error::NotFound(m)) && m@ == "state not found"@),
    {
        if present {
            Ok(state_bytes)
        } else {
            Err(Error::NotFound(String::from_str("state not found")))
        }
    }

    /// The identity check of a consensus-state query: the consensus height
    /// and the query height must carry one revision.
    pub fn consensus_state_guard(&self, consensus_height: Height, query_height: Height) -> (r:
        Result<(), Error>)
        ensures
            consensus_height.revision_number != query_height.revision_number ==> r == Err::<
                (),
                Error,
            >(Error::RevisionMismatch),
            consensus_height.revision_number == query_height.revision_number ==> r == Ok::<
                (),
                Error,
            >(()),
    {
        if consensus_height.revision_number != query_height.revision_number {
            Err(Error::RevisionMismatch)
        } else {
            Ok(())
        }
    }

    /// The commitment prefix is not offered by this adapter yet.
    pub fn query_commitment_prefix(&self) -> (r: Result<Vec<u8>, Error>)
        ensures
            r matches Err(Error::Unsupported(_)),
    {
        Err(Error::Unsupported(String::from_str("query_commitment_prefix")))
    }

    /// Upgraded client states are not offered by this adapter yet.
    pub fn query_upgraded_client_state(&self, height: Height) -> (r: Result<
        (ClientState, Vec<u8>),
        Error,
    >)
        ensures
            r matches Err(Error::Unsupported(_)),
    {
        let _ = height;
        Err(Error::Unsupported(String::from_str("query_upgraded_client_state")))
    }

    /// Upgraded consensus states are not offered by this adapter yet.
    pub fn query_upgraded_consensus_state(&self, height: Height) -> (r: Result<
        (ConsensusState, Vec<u8>),
        Error,
    >)
        ensures
            r matches Err(Error::Unsupported(_)),
    {
        let _ = height;
        Err(Error::Unsupported(String::from_str("query_upgraded_consensus_state")))
    }

    /// A fresh wrapped client state for a client created at `height`: the
    /// payload is the configured chain-native client state in its wire
    /// form (so this chain family's light client accepts it), the code id
    /// is the configured hexadecimal id decoded to bytes, and the client
    /// starts unfrozen.
    pub fn build_client_state(&self, height: Height) -> (r: Result<ClientState, Error>)
        ensures
            is_hex_string(self.config.code_id@) ==> (r matches Ok(c) && c@.data
                == celo_client_state_wire(spec_config_client_state(self.config)) && c@.code_id
                == hex_bytes(self.config.code_id@) && c@.chain_id == self.config.id@
                && c@.latest_height == height && !c@.is_frozen && celo_client_state_decodable(
                c@.data,
            )),
            !is_hex_string(self.config.code_id@) ==> r == Err::<ClientState, Error>(
                Error::HexDecode,
            ),
    {
        let celo_cl = CeloClientState {
            epoch_size: self.config.epoch_size,
            allowed_clock_skew: self.config.allowed_clock_skew,
            trusting_period: self.config.trusting_period,
            verify_epoch_headers: self.config.verify_epoch_headers,
            verify_non_epoch_headers: self.config.verify_non_epoch_headers,
            verify_header_timestamp: self.config.verify_header_timestamp,
            allow_update_after_expiry: self.config.allow_update_after_expiry,
            allow_update_after_misbehavior: self.config.allow_update_after_misbehavior,
            upgrade_path: clone_bytes(&self.config.upgrade_path),
        };
        match crate::hexstr::decode_hex(self.config.code_id.as_str()) {
            None => Err(Error::HexDecode),
            Some(code_id) => {
                let path_len: usize = celo_cl.upgrade_path.len();
                let data = celo_cl.encode();
                proof {
                    assert(celo_cl@.upgrade_path.len() == path_len);
                    lemma_celo_client_state_round_trip(celo_cl@);
                }
                Ok(
                    ClientState {
                        data,
                        code_id,
                        chain_id: self.config.id.clone_id(),
                        latest_height: height,
                        is_frozen: false,
                    },
                )
            },
        }
    }

    /// A wrapped consensus state for an already-fetched chain-native
    /// block: pure packaging, no network traffic.
    pub fn build_consensus_state(&self, block: CeloBlock) -> (r: Result<ConsensusState, Error>)
        ensures
            is_hex_string(self.config.code_id@) ==> (r matches Ok(c) && c@.data
                == block.consensus_state.encoding@ && c@.code_id == hex_bytes(
                self.config.code_id@,
            ) && c@.timestamp == block.header.time && c@.root == Seq::<u8>::empty()),
            !is_hex_string(self.config.code_id@) ==> r == Err::<ConsensusState, Error>(
                Error::HexDecode,
            ),
    {
        build_wasm_consensus_state(block, self.config.code_id.as_str())
    }

    /// The identity check and fetch plan of a header build: revisions must
    /// agree with each other and with the configuration, before any
    /// network traffic; then every height strictly between trusted and
    /// target is to be fetched.
    pub fn build_header_request(&self, trusted: Height, target: Height) -> (r: Result<
        Vec<u64>,
        Error,
    >)
        ensures
            (trusted.revision_number != target.revision_number || trusted.revision_number
                != self.config.id@.version) ==> r == Err::<Vec<u64>, Error>(
                Error::RevisionMismatch,
            ),
            (trusted.revision_number == target.revision_number && trusted.revision_number
                == self.config.id@.version) ==> (r matches Ok(v) && v@
                == spec_supporting_heights(trusted, target)),
    {
        if trusted.revision_number != target.revision_number || trusted.revision_number
            != self.config.id.version() {
            return Err(Error::RevisionMismatch);
        }
        Ok(supporting_heights(trusted, target))
    }

    /// Package fetched chain-native headers as the target header and its
    /// supporting headers, ready for submission.
    pub fn build_header_assemble(&self, trusted: Height, headers: Verified<NativeHeader>) -> (r: (
        Header,
        Vec<Header>,
    ))
        ensures
            r.0@.height == (Height {
                revision_number: trusted.revision_number,
                revision_height: headers.target.number,
            }),
            r.0@.data == headers.target.encoding@,
            r.1@.len() == headers.supporting@.len(),
            forall|i: int|
                0 <= i < r.1@.len() ==> (#[trigger] r.1@[i])@.height == (Height {
                    revision_number: trusted.revision_number,
                    revision_height: headers.supporting@[i].number,
                }) && r.1@[i]@.data == headers.supporting@[i].encoding@,
    {
        let v = wrap_headers(trusted.revision_number, headers);
        (v.target, v.supporting)
    }
}

} // verus!
