use aurora_workspace_demo::config::{
    default_init_config, deploy_account_id, AURORA_LOCAL_CHAIN_ID, EVM_ACCOUNT_ID,
    OWNER_ACCOUNT_ID, PROVER_ACCOUNT_ID, ZERO_CUSTODIAN_ADDRESS,
};

#[test]
fn default_config_carries_the_well_known_identities() {
    let c = default_init_config();
    assert_eq!(c.owner_id.as_str(), "owner.test.near");
    assert_eq!(c.prover_id.as_str(), "prover.test.near");
    assert_eq!(c.chain_id, 1313161556);
    let prover = c.prover_config.expect("the default configuration carries a prover config");
    assert_eq!(
        prover.custodian_address,
        "0000000000000000000000000000000000000000"
    );
    assert_eq!(prover.validating_account.as_str(), "prover.test.near");
}

#[test]
fn the_well_known_constants() {
    assert_eq!(EVM_ACCOUNT_ID, "aurora.test.near");
    assert_eq!(OWNER_ACCOUNT_ID, "owner.test.near");
    assert_eq!(PROVER_ACCOUNT_ID, "prover.test.near");
    assert_eq!(AURORA_LOCAL_CHAIN_ID, 1313161556);
    assert_eq!(ZERO_CUSTODIAN_ADDRESS.len(), 40);
}

#[test]
fn deploy_account_depends_on_the_scenario() {
    assert_eq!(deploy_account_id(false).as_str(), "aurora.test.near");
    assert_eq!(deploy_account_id(true).as_str(), "owner.test.near");
}

#[test]
fn prover_config_clone_keeps_the_fields() {
    let c = default_init_config();
    let p = c.prover_config.unwrap();
    let q = p.clone();
    assert_eq!(p.custodian_address, q.custodian_address);
    assert_eq!(
        p.validating_account.as_str(),
        q.validating_account.as_str()
    );
}
