//! Peer transport and wallet synchronization core of a light-client wallet.
//!
//! The crate holds the decisions of the peer client and of the sync engine as
//! verified functions on plain values. Sockets, the database and the task
//! executor stay with the caller, who performs what the crate decides.
//!
//! Peer transport:
//! - [`codec`]: the wire format of a message, with its round-trip laws;
//! - [`request_map`]: the table of outstanding requests and the choice of ids;
//! - [`request`]: framing of requests and the judging of replies;
//! - [`inbound`]: the demultiplexer of inbound frames;
//! - [`peer_id`], [`peer_state`]: who a peer is and what tip it reported.
//!
//! Wallet sync:
//! - [`wallet_sync`]: the order of work of a sync run;
//! - [`incremental`]: the persisting of a batch of coin states in one transaction;
//! - [`derivation`]: the extension of the derivation chain;
//! - [`wallet_peer`], [`wallet`], [`chunks`]: subscriptions, records and chunking.
//!
//! [`wallet_connect`] answers a connected application, with [`parse`] to read
//! its requests, and [`primitives`] gathers what is taken on trust from other
//! crates.

pub mod error;
pub mod primitives;
pub mod codec;
pub mod peer_id;
pub mod request_map;
pub mod inbound;
pub mod request;
pub mod chunks;
pub mod wallet;
pub mod derivation;
pub mod incremental;
pub mod peer_state;
pub mod wallet_peer;
pub mod wallet_sync;
pub mod parse;
pub mod wallet_connect;
