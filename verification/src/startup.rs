//! The bootstrap plan: the ordered actions the launcher performs before it
//! serves requests, and when the one-time genesis runs among them.

use vstd::prelude::*;

verus! {

/// One step of bringing the local network up. The launcher's binary performs
/// these in the order the plan lists them.
#[derive(Clone, Copy, Debug, PartialEq, Eq, Structural)]
pub enum StartupAction {
    /// Generate the initial chain state and its keys and config on disk.
    RunGenesis,
    /// Read the keystore and build a genesis configuration that reuses its
    /// addresses.
    BuildGenesisConfigFromKeystore,
    /// Start the validator and fullnode (and the indexer, when enabled).
    StartCluster,
    /// Serve the faucet until the process ends.
    ServeFaucet,
}

/// The plan for one invocation. Genesis runs only when a persisted state is
/// asked for and no network config is on disk yet; a persisted state always
/// rebuilds its genesis configuration from the keystore; every invocation
/// then starts the cluster and serves the faucet.
pub open spec fn startup_plan_spec(with_persisted: bool, network_config_exists: bool) -> Seq<
    StartupAction,
> {
    if with_persisted && !network_config_exists {
        seq![
            StartupAction::RunGenesis,
            StartupAction::BuildGenesisConfigFromKeystore,
            StartupAction::StartCluster,
            StartupAction::ServeFaucet,
        ]
    } else if with_persisted {
        seq![
            StartupAction::BuildGenesisConfigFromKeystore,
            StartupAction::StartCluster,
            StartupAction::ServeFaucet,
        ]
    } else {
        seq![StartupAction::StartCluster, StartupAction::ServeFaucet]
    }
}

/// How often a plan runs genesis.
pub open spec fn genesis_runs(plan: Seq<StartupAction>) -> nat
    decreases plan.len(),
{
    if plan.len() == 0 {
        0
    } else {
        (if plan.first() is RunGenesis {
            1nat
        } else {
            0nat
        }) + genesis_runs(plan.drop_first())
    }
}

/// The ordered actions for one invocation.
pub fn startup_plan(with_persisted: bool, network_config_exists: bool) -> (plan: Vec<
    StartupAction,
>)
    ensures
        plan@ == startup_plan_spec(with_persisted, network_config_exists),
{
    let mut plan: Vec<StartupAction> = Vec::new();
    if with_persisted {
        if !network_config_exists {
            plan.push(StartupAction::RunGenesis);
        }
        plan.push(StartupAction::BuildGenesisConfigFromKeystore);
    }
    plan.push(StartupAction::StartCluster);
    plan.push(StartupAction::ServeFaucet);
    proof {
        assert(plan@ =~= startup_plan_spec(with_persisted, network_config_exists));
    }
    plan
}

/// True when every genesis run in a plan comes before every cluster start.
pub open spec fn genesis_before_cluster(plan: Seq<StartupAction>) -> bool {
    forall|i: int, j: int|
        0 <= i < plan.len() && 0 <= j < plan.len() && (#[trigger] plan[i]) is RunGenesis && (
        #[trigger] plan[j]) is StartCluster ==> i < j
}

/// With the persisted flag set and no network config present, genesis runs
/// exactly once; in every other invocation it never runs; and whenever it
/// runs, it runs before the cluster starts.
pub proof fn lemma_genesis_exactly_once(with_persisted: bool, network_config_exists: bool)
    ensures
        genesis_runs(startup_plan_spec(with_persisted, network_config_exists)) == (
        if with_persisted && !network_config_exists {
            1nat
        } else {
            0nat
        }),
        genesis_before_cluster(startup_plan_spec(with_persisted, network_config_exists)),
{
    let plan = startup_plan_spec(with_persisted, network_config_exists);
    assert(genesis_runs(plan) == (if with_persisted && !network_config_exists {
        1nat
    } else {
        0nat
    })) by {
        reveal_with_fuel(genesis_runs, 5);
    }
}

} // verus!
