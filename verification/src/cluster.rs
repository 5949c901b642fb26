//! The options the launcher hands to the cluster: the addresses each service
//! binds to and the knobs of a fresh local network.

use vstd::prelude::*;
use vstd::string::StringExecFns;

use crate::config::ClusterConfig;
use crate::decimal::decimal;
use crate::decimal::u64_to_decimal;

verus! {

/// Which network the cluster runs against. This launcher always brings up a
/// fresh local network.
pub enum ClusterEnv {
    NewLocal,
}

/// The options a local cluster is started with: one address per enabled
/// service, the epoch duration, and the indexer's method set.
pub struct ClusterOptions {
    /// The network the cluster runs against.
    pub env: ClusterEnv,
    /// Address the fullnode RPC server binds to.
    pub fullnode_address: Option<String>,
    /// Address the indexer RPC server binds to, when the indexer is enabled.
    pub indexer_address: Option<String>,
    /// Connection string of the indexer's Postgres store, when the indexer is
    /// enabled.
    pub pg_address: Option<String>,
    /// Address of an externally managed faucet; this launcher runs its own
    /// faucet instead.
    pub faucet_address: Option<String>,
    /// Length of an epoch, in milliseconds.
    pub epoch_duration_ms: Option<u64>,
    /// Whether the indexer serves its experimental method set.
    pub use_indexer_experimental_methods: bool,
}

/// The loopback address with the given port: `127.0.0.1:<port>`.
pub open spec fn local_address_spec(port: u16) -> Seq<char> {
    "127.0.0.1:"@ + decimal(port as nat)
}

/// The connection string of the indexer's Postgres store:
/// `postgres://postgres@<host>:<port>/sui_indexer`.
pub open spec fn pg_address_spec(host: Seq<char>, port: u16) -> Seq<char> {
    "postgres://postgres@"@ + host + ":"@ + decimal(port as nat) + "/sui_indexer"@
}

/// The options a configuration asks for: the fullnode always binds the
/// loopback address on its port; the indexer's two addresses are present
/// exactly when the indexer is enabled; no external faucet is named; the
/// epoch duration is passed through.
pub open spec fn options_for_spec(config: &ClusterConfig, opt: ClusterOptions) -> bool {
    &&& opt.env is NewLocal
    &&& opt.fullnode_address matches Some(a) && a@ == local_address_spec(config.fullnode_rpc_port)
    &&& config.with_indexer ==> (opt.indexer_address matches Some(a) && a@
        == local_address_spec(config.indexer_rpc_port))
    &&& !config.with_indexer ==> opt.indexer_address is None
    &&& config.with_indexer ==> (opt.pg_address matches Some(a) && a@ == pg_address_spec(
        config.pg_host@,
        config.pg_port,
    ))
    &&& !config.with_indexer ==> opt.pg_address is None
    &&& opt.faucet_address is None
    &&& opt.epoch_duration_ms == Some(config.epoch_duration_ms)
    &&& opt.use_indexer_experimental_methods == config.use_indexer_experimental_methods
}

/// Builds `127.0.0.1:<port>`.
pub fn local_address(port: u16) -> (r: String)
    ensures
        r@ == local_address_spec(port),
{
    let mut r = "127.0.0.1:".to_owned();
    r.append(u64_to_decimal(port as u64).as_str());
    r
}

/// Builds `postgres://postgres@<host>:<port>/sui_indexer`.
pub fn pg_address(host: &str, port: u16) -> (r: String)
    ensures
        r@ == pg_address_spec(host@, port),
{
    let mut r = "postgres://postgres@".to_owned();
    r.append(host);
    r.append(":");
    r.append(u64_to_decimal(port as u64).as_str());
    r.append("/sui_indexer");
    r
}

/// The options for one configuration.
pub fn cluster_options(config: &ClusterConfig) -> (opt: ClusterOptions)
    ensures
        options_for_spec(config, opt),
{
    let indexer_address: Option<String> = if config.with_indexer {
        Some(local_address(config.indexer_rpc_port))
    } else {
        None
    };
    let pg_addr: Option<String> = if config.with_indexer {
        Some(pg_address(config.pg_host.as_str(), config.pg_port))
    } else {
        None
    };
    ClusterOptions {
        env: ClusterEnv::NewLocal,
        fullnode_address: Some(local_address(config.fullnode_rpc_port)),
        indexer_address,
        pg_address: pg_addr,
        faucet_address: None,
        epoch_duration_ms: Some(config.epoch_duration_ms),
        use_indexer_experimental_methods: config.use_indexer_experimental_methods,
    }
}

} // verus!
