//! A launcher for a local test network: one validator, one fullnode, an
//! optional indexer, and a small two-route faucet HTTP service in front of a
//! faucet client.
//!
//! This crate holds the launcher's decision layer: the configuration record
//! with its documented defaults, the addresses and options handed to the
//! cluster, the bootstrap plan that decides when genesis runs, and the
//! request/response rules of the faucet service. The processes themselves
//! (genesis, cluster, HTTP server) are driven by a thin binary around this
//! library.

pub mod cluster;
pub mod config;
pub mod decimal;
pub mod faucet;
pub mod startup;
