use coretime_revenue::network::network_plan;

#[test]
fn network_is_planned() {
    let plan = network_plan();
    assert_eq!(plan.relay_chain, "rococo-local");
    assert_eq!(plan.relay_command, "polkadot");
    assert_eq!(plan.validators, ["alice", "bob", "charlie"]);
    assert_eq!(plan.on_demand_base_fee, 50_000_000);
    assert_eq!(plan.para_id, 1005);
    assert_eq!(plan.para_chain, "coretime-rococo-local");
    assert_eq!(plan.para_command, "polkadot-parachain");
    assert_eq!(plan.collator, "coretime");
}
