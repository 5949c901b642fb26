//! The launcher's configuration record and its documented defaults.

use vstd::prelude::*;

verus! {

/// Default port for the fullnode RPC server.
pub const DEFAULT_FULLNODE_RPC_PORT: u16 = 9000;

/// Default port for the faucet HTTP service.
pub const DEFAULT_FAUCET_PORT: u16 = 9123;

/// Default port for the indexer RPC server.
pub const DEFAULT_INDEXER_RPC_PORT: u16 = 9124;

/// Default port for the indexer's Postgres store.
pub const DEFAULT_PG_PORT: u16 = 5432;

/// Default epoch duration in milliseconds: one minute.
pub const DEFAULT_EPOCH_DURATION_MS: u64 = 60000;

/// One flat record of everything the launcher is told on the command line:
/// ports, the Postgres hostname, the epoch duration, and the feature flags.
pub struct ClusterConfig {
    /// Port the fullnode RPC server listens on.
    pub fullnode_rpc_port: u16,
    /// Port the faucet HTTP service listens on.
    pub faucet_port: u16,
    /// Port the indexer RPC server listens on, when the indexer is enabled.
    pub indexer_rpc_port: u16,
    /// Port of the indexer's Postgres store.
    pub pg_port: u16,
    /// Hostname of the indexer's Postgres store.
    pub pg_host: String,
    /// Length of an epoch, in milliseconds.
    pub epoch_duration_ms: u64,
    /// Whether to run the indexer beside the validator and fullnode.
    pub with_indexer: bool,
    /// Whether the indexer serves its experimental method set.
    pub use_indexer_experimental_methods: bool,
    /// Whether the local network keeps a persisted state on disk.
    pub with_persisted: bool,
}

impl ClusterConfig {
    /// True exactly when every field holds its documented default.
    pub open spec fn is_default(&self) -> bool {
        &&& self.fullnode_rpc_port == DEFAULT_FULLNODE_RPC_PORT
        &&& self.faucet_port == DEFAULT_FAUCET_PORT
        &&& self.indexer_rpc_port == DEFAULT_INDEXER_RPC_PORT
        &&& self.pg_port == DEFAULT_PG_PORT
        &&& self.pg_host@ == "localhost"@
        &&& self.epoch_duration_ms == DEFAULT_EPOCH_DURATION_MS
        &&& !self.with_indexer
        &&& !self.use_indexer_experimental_methods
        &&& !self.with_persisted
    }
}

impl Default for ClusterConfig {
    /// The configuration used when every command-line flag is omitted.
    fn default() -> (c: ClusterConfig)
        ensures
            c.is_default(),
    {
        ClusterConfig {
            fullnode_rpc_port: DEFAULT_FULLNODE_RPC_PORT,
            faucet_port: DEFAULT_FAUCET_PORT,
            indexer_rpc_port: DEFAULT_INDEXER_RPC_PORT,
            pg_port: DEFAULT_PG_PORT,
            pg_host: "localhost".to_owned(),
            epoch_duration_ms: DEFAULT_EPOCH_DURATION_MS,
            with_indexer: false,
            use_indexer_experimental_methods: false,
            with_persisted: false,
        }
    }
}

} // verus!
