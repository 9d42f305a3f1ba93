//! An encrypted-at-rest store for a small configuration database of
//! networks, VPNs and peers.
//!
//! The plaintext database only ever lives in a private staging directory; the
//! one durable artifact is a passphrase-encrypted file. This crate holds the
//! logic of that lifecycle as a verified state machine ([`store::Store`]),
//! the cipher codec, the staging paths, the SQL it issues, the migration plan
//! and the integrity rules of the relational schema. The caller performs the
//! file and database work that each step asks for.

pub mod cipher;
pub mod commands;
mod error;
pub mod laws;
pub mod migrations;
pub mod models;
pub mod paths;
pub mod sql;
pub mod store;

pub use commands::PeerStatus;
pub use error::DatabaseError;
pub use models::{AllowedIp, Network, Peer, PresharedKey, Vpn};
pub use paths::path_to_string;
pub use store::{recovery_for, Action, Event, Phase, Recovery, Store};
