//! Chain-abstraction and light-client verification core for relaying
//! between a committee-based (Istanbul-style) chain and a counterparty
//! light client.
//!
//! The crate is organised around four pieces:
//! - the generic "wrapped" envelope types and their wire codec
//!   (`client_state`, `consensus_state`, `header`, over the primitives in
//!   `wire`), with the chain-native client state in `celo_state` and the
//!   native records in `compat`;
//! - the light-client verification protocol (`light_client`);
//! - the chain endpoint's decisions (`chain`);
//! - the event monitor's decisions (`event_monitor`).
//!
//! Everything here is a pure function of configuration and of values a
//! transport layer has already fetched; identity checks run before any
//! network traffic, and every fallible operation reports a typed error.

pub mod height;
pub mod wire;
pub mod identifier;
pub mod commitment;
pub mod error;
pub mod client_state;
pub mod consensus_state;
pub mod header;
pub mod hexstr;
pub mod compat;
pub mod celo_state;
pub mod light_client;
pub mod chain;
pub mod event_monitor;
