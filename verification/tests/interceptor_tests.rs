use liquid_staking::envelope::Coin;
use liquid_staking::interceptor::{
    AccountDelegation, InterchainIntercaptorBase, QueryMsg, QueryResponse, State, Transfer,
};

fn base() -> InterchainIntercaptorBase<String, u64> {
    InterchainIntercaptorBase {
        config: "config_record".to_string(),
        state: State { ica: Some("ica_address".to_string()), last_processed_height: Some(42u64) },
        recipient_txs: vec![Transfer {
            recipient: "recipient".to_string(),
            sender: "sender".to_string(),
            denom: "remote_denom".to_string(),
            amount: 15u128,
        }],
        transactions: vec![7u64, 8u64],
        delegations: vec![AccountDelegation {
            delegator: "ica_address".to_string(),
            validator: "valoper1".to_string(),
            amount: Coin { denom: "remote_denom".to_string(), amount: 1000u128 },
        }],
        last_updated_height: 99u64,
    }
}

#[test]
fn test_query_twice_is_identical() {
    let b = base();
    for msg in [
        QueryMsg::State {},
        QueryMsg::Config {},
        QueryMsg::Transactions {},
        QueryMsg::InterchainTransactions {},
        QueryMsg::Delegations {},
    ] {
        let first = b.query(msg);
        let second = b.query(msg);
        assert_eq!(first, second);
    }
}

#[test]
fn test_query_reads_each_part_of_the_state() {
    let b = base();
    match b.query(QueryMsg::State {}) {
        QueryResponse::State(st) => assert_eq!(*st, b.state),
        other => panic!("unexpected response: {:?}", other),
    }
    match b.query(QueryMsg::Config {}) {
        QueryResponse::Config(c) => assert_eq!(*c, "config_record".to_string()),
        other => panic!("unexpected response: {:?}", other),
    }
    match b.query(QueryMsg::Transactions {}) {
        QueryResponse::Transactions(t) => assert_eq!(*t, b.recipient_txs),
        other => panic!("unexpected response: {:?}", other),
    }
    match b.query(QueryMsg::InterchainTransactions {}) {
        QueryResponse::InterchainTransactions(t) => assert_eq!(*t, vec![7u64, 8u64]),
        other => panic!("unexpected response: {:?}", other),
    }
    match b.query(QueryMsg::Delegations {}) {
        QueryResponse::Delegations(d) => {
            assert_eq!(*d.delegations, b.delegations);
            assert_eq!(d.last_updated_height, 99u64);
        }
        other => panic!("unexpected response: {:?}", other),
    }
}

#[test]
fn test_strategy_config_update_changes_exactly_named_fields() {
    let mut config = liquid_staking::strategy::Config {
        core_address: "core".to_string(),
        puppeteer_address: "puppeteer".to_string(),
        validator_set_address: "validator_set".to_string(),
        distribution_address: "distribution".to_string(),
        denom: "remote_denom".to_string(),
        owner: "core".to_string(),
    };
    let attrs = liquid_staking::strategy::exec_config_update(
        &mut config,
        &"core".to_string(),
        None,
        Some("new_puppeteer".to_string()),
        None,
        None,
        Some("new_denom".to_string()),
    )
    .unwrap();
    assert_eq!(attrs.len(), 2);
    assert_eq!(attrs[0].key, "puppeteer_address".to_string());
    assert_eq!(attrs[0].value, "new_puppeteer".to_string());
    assert_eq!(attrs[1].key, "denom".to_string());
    assert_eq!(attrs[1].value, "new_denom".to_string());
    assert_eq!(config.core_address, "core".to_string());
    assert_eq!(config.puppeteer_address, "new_puppeteer".to_string());
    assert_eq!(config.validator_set_address, "validator_set".to_string());
    assert_eq!(config.distribution_address, "distribution".to_string());
    assert_eq!(config.denom, "new_denom".to_string());
    assert_eq!(config.owner, "core".to_string());
}

#[test]
fn test_strategy_config_update_requires_the_owner() {
    let mut config = liquid_staking::strategy::Config {
        core_address: "core".to_string(),
        puppeteer_address: "puppeteer".to_string(),
        validator_set_address: "validator_set".to_string(),
        distribution_address: "distribution".to_string(),
        denom: "remote_denom".to_string(),
        owner: "core".to_string(),
    };
    let before = config.clone();
    let err = liquid_staking::strategy::execute(
        &mut config,
        &"stranger".to_string(),
        liquid_staking::strategy::ExecuteMsg::UpdateConfig {
            core_address: None,
            puppeteer_address: Some("hijacked".to_string()),
            validator_set_address: None,
            distribution_address: None,
            denom: None,
        },
    )
    .unwrap_err();
    assert_eq!(err, liquid_staking::error::ContractError::Unauthorized);
    assert_eq!(config, before);
}

#[test]
fn test_strategy_instantiate_records_all_fields() {
    let (config, attrs) = liquid_staking::strategy::instantiate(
        liquid_staking::strategy::InstantiateMsg {
            core_address: "core".to_string(),
            puppeteer_address: "puppeteer".to_string(),
            validator_set_address: "validator_set".to_string(),
            distribution_address: "distribution".to_string(),
            denom: "remote_denom".to_string(),
        },
    );
    assert_eq!(attrs.len(), 5);
    assert_eq!(attrs[0].key, "core_address".to_string());
    assert_eq!(attrs[0].value, "core".to_string());
    assert_eq!(config.core_address, "core".to_string());
    assert_eq!(config.denom, "remote_denom".to_string());
    // the core owns the strategy
    assert_eq!(config.owner, "core".to_string());
    assert_eq!(
        liquid_staking::strategy::query_config(&config).puppeteer_address,
        "puppeteer".to_string()
    );
}
