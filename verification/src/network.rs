//! The network that a run is driven on.

use crate::scenario::{CORETIME_PARA_ID, ON_DEMAND_BASE_FEE};
use vstd::prelude::*;

verus! {

/// What the network is made of.
pub struct NetworkPlan {
    /// The chain specification of the relay chain.
    pub relay_chain: &'static str,
    /// The program that its validators run.
    pub relay_command: &'static str,
    /// The names of its validators. The first one serves the clients of the relay chain.
    pub validators: [&'static str; 3],
    /// The on-demand base fee that the relay chain has from genesis on.
    pub on_demand_base_fee: u128,
    /// The number of the parachain, which is registered at genesis.
    pub para_id: u32,
    /// The chain specification of the parachain.
    pub para_chain: &'static str,
    /// The program that its collator runs.
    pub para_command: &'static str,
    /// The name of its collator, which serves the clients of the parachain.
    pub collator: &'static str,
}

/// The network of the run. Its base fee is the one that an on-demand order is expected to cost.
pub fn network_plan() -> (plan: NetworkPlan)
    ensures
        plan.relay_chain@ == "rococo-local"@,
        plan.relay_command@ == "polkadot"@,
        plan.validators@ == seq!["alice", "bob", "charlie"],
        plan.on_demand_base_fee == ON_DEMAND_BASE_FEE,
        plan.para_id == CORETIME_PARA_ID,
        plan.para_chain@ == "coretime-rococo-local"@,
        plan.para_command@ == "polkadot-parachain"@,
        plan.collator@ == "coretime"@,
{
    NetworkPlan {
        relay_chain: "rococo-local",
        relay_command: "polkadot",
        validators: ["alice", "bob", "charlie"],
        on_demand_base_fee: ON_DEMAND_BASE_FEE,
        para_id: CORETIME_PARA_ID,
        para_chain: "coretime-rococo-local",
        para_command: "polkadot-parachain",
        collator: "coretime",
    }
}

} // verus!
