//! Symbol indexing for multi-package source workspaces: stable identities,
//! canonical paths, implementation status, the symbol store's rules, the
//! line protocol, the file watcher's batching, and the daemon's and the
//! client's decisions.
//!
//! Everything here computes on plain values; reading files, running the
//! documentation extractor, the database and the sockets live with the
//! caller, which hands this library what they produced.

pub mod text;
pub mod models;
pub mod hashing;
pub mod config;
pub mod utils;
pub mod doc;
pub mod status;
pub mod indexer;
pub mod discovery;
pub mod rustdoc_parser;
pub mod store;
pub mod protocol;
pub mod watcher;
pub mod daemon;
pub mod client;
pub mod sample;
