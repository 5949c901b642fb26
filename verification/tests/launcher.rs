//! Tests of the launcher's decision layer: documented defaults, cluster
//! addresses and options, the bootstrap plan, and the faucet's two routes.

use sui_test_validator::cluster::cluster_options;
use sui_test_validator::cluster::local_address;
use sui_test_validator::cluster::pg_address;
use sui_test_validator::cluster::ClusterEnv;
use sui_test_validator::config::ClusterConfig;
use sui_test_validator::decimal::u64_to_decimal;
use sui_test_validator::faucet::faucet_response_status;
use sui_test_validator::faucet::health_response;
use sui_test_validator::faucet::CoinInfo;
use sui_test_validator::faucet::FaucetRequest;
use sui_test_validator::faucet::FaucetResponse;
use sui_test_validator::startup::startup_plan;
use sui_test_validator::startup::StartupAction;

#[test]
fn defaults_match_documented_values() {
    let c = ClusterConfig::default();
    assert_eq!(c.fullnode_rpc_port, 9000);
    assert_eq!(c.faucet_port, 9123);
    assert_eq!(c.indexer_rpc_port, 9124);
    assert_eq!(c.pg_port, 5432);
    assert_eq!(c.pg_host, "localhost");
    assert_eq!(c.epoch_duration_ms, 60000);
    assert!(!c.with_indexer);
    assert!(!c.use_indexer_experimental_methods);
    assert!(!c.with_persisted);
}

#[test]
fn decimal_renders_exact_digits() {
    assert_eq!(u64_to_decimal(0), "0");
    assert_eq!(u64_to_decimal(7), "7");
    assert_eq!(u64_to_decimal(10), "10");
    assert_eq!(u64_to_decimal(9000), "9000");
    assert_eq!(u64_to_decimal(9123), "9123");
    assert_eq!(u64_to_decimal(9124), "9124");
    assert_eq!(u64_to_decimal(5432), "5432");
    assert_eq!(u64_to_decimal(60000), "60000");
    assert_eq!(u64_to_decimal(65535), "65535");
    assert_eq!(u64_to_decimal(u64::MAX), "18446744073709551615");
}

#[test]
fn local_address_splices_the_port() {
    assert_eq!(local_address(9000), "127.0.0.1:9000");
    assert_eq!(local_address(0), "127.0.0.1:0");
    assert_eq!(local_address(65535), "127.0.0.1:65535");
}

#[test]
fn pg_address_names_host_port_and_database() {
    assert_eq!(
        pg_address("localhost", 5432),
        "postgres://postgres@localhost:5432/sui_indexer"
    );
    assert_eq!(
        pg_address("db.example", 6000),
        "postgres://postgres@db.example:6000/sui_indexer"
    );
}

#[test]
fn options_without_indexer_leave_its_addresses_out() {
    let c = ClusterConfig::default();
    let opt = cluster_options(&c);
    assert!(matches!(opt.env, ClusterEnv::NewLocal));
    assert_eq!(opt.fullnode_address.as_deref(), Some("127.0.0.1:9000"));
    assert_eq!(opt.indexer_address, None);
    assert_eq!(opt.pg_address, None);
    assert_eq!(opt.faucet_address, None);
    assert_eq!(opt.epoch_duration_ms, Some(60000));
    assert!(!opt.use_indexer_experimental_methods);
}

#[test]
fn options_with_indexer_name_both_addresses() {
    let mut c = ClusterConfig::default();
    c.with_indexer = true;
    c.use_indexer_experimental_methods = true;
    let opt = cluster_options(&c);
    assert_eq!(opt.fullnode_address.as_deref(), Some("127.0.0.1:9000"));
    assert_eq!(opt.indexer_address.as_deref(), Some("127.0.0.1:9124"));
    assert_eq!(
        opt.pg_address.as_deref(),
        Some("postgres://postgres@localhost:5432/sui_indexer")
    );
    assert_eq!(opt.faucet_address, None);
    assert!(opt.use_indexer_experimental_methods);
}

#[test]
fn health_is_success_with_fixed_body() {
    let (status, body) = health_response();
    assert_eq!(status, 200);
    assert_eq!(body, "OK");
}

#[test]
fn transfers_yield_created() {
    let resp = FaucetResponse {
        transferred_gas_objects: vec![CoinInfo {
            amount: 200000000000,
            id: String::from("0x2"),
            transfer_tx_digest: String::from("digest"),
        }],
        error: None,
    };
    assert_eq!(faucet_response_status(&resp), 201);
}

#[test]
fn no_transfers_yield_server_error() {
    let resp = FaucetResponse {
        transferred_gas_objects: Vec::new(),
        error: Some(String::from("faucet ran dry")),
    };
    assert_eq!(faucet_response_status(&resp), 500);
    let silent = FaucetResponse {
        transferred_gas_objects: Vec::new(),
        error: None,
    };
    assert_eq!(faucet_response_status(&silent), 500);
}

#[test]
fn request_names_its_recipient() {
    let req = FaucetRequest::FixedAmountRequest {
        recipient: String::from("0xabc"),
    };
    assert_eq!(req.recipient().as_str(), "0xabc");
}

#[test]
fn persisted_without_config_runs_genesis_once_before_cluster() {
    let plan = startup_plan(true, false);
    assert_eq!(
        plan,
        vec![
            StartupAction::RunGenesis,
            StartupAction::BuildGenesisConfigFromKeystore,
            StartupAction::StartCluster,
            StartupAction::ServeFaucet,
        ]
    );
    let genesis_runs = plan
        .iter()
        .filter(|a| matches!(a, StartupAction::RunGenesis))
        .count();
    assert_eq!(genesis_runs, 1);
}

#[test]
fn persisted_with_existing_config_skips_genesis() {
    let plan = startup_plan(true, true);
    assert_eq!(
        plan,
        vec![
            StartupAction::BuildGenesisConfigFromKeystore,
            StartupAction::StartCluster,
            StartupAction::ServeFaucet,
        ]
    );
}

#[test]
fn ephemeral_runs_no_genesis() {
    for exists in [false, true] {
        let plan = startup_plan(false, exists);
        assert_eq!(
            plan,
            vec![StartupAction::StartCluster, StartupAction::ServeFaucet]
        );
    }
}
