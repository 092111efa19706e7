use liquid_staking::factory::{
    CallbackMsg, CodeIds, CoreParams, DenomMetadata, ExecuteMsg, FeesMsg, InstantiateMsg,
    QueryMsg, RemoteOpts, State, UpdateConfigMsg,
};
use liquid_staking::validators_set::{InstantiateMsg as ValidatorsSetInstantiateMsg, ValidatorData};
use liquid_staking::validators_stats::InstantiateMsg as ValidatorsStatsInstantiateMsg;

fn code_ids() -> CodeIds {
    CodeIds {
        token_code_id: 1,
        core_code_id: 2,
        puppeteer_code_id: 3,
        withdrawal_voucher_code_id: 4,
        withdrawal_manager_code_id: 5,
        strategy_code_id: 6,
        validators_set_code_id: 7,
        distribution_code_id: 8,
        rewards_manager_code_id: 9,
    }
}

#[test]
fn test_factory_messages_round_trip_their_fields() {
    let msg = InstantiateMsg {
        code_ids: code_ids(),
        remote_opts: RemoteOpts {
            denom: "remote_denom".to_string(),
            update_period: 60,
            connection_id: "connection_id".to_string(),
            port_id: "port_id".to_string(),
            transfer_channel_id: "transfer_channel_id".to_string(),
        },
        salt: "salt".to_string(),
        subdenom: "subdenom".to_string(),
    };
    assert_eq!(msg.code_ids, code_ids());
    assert_eq!(msg.remote_opts.update_period, 60);
    let init = ExecuteMsg::Init {
        base_denom: "base".to_string(),
        core_params: CoreParams {
            idle_min_interval: 1,
            puppeteer_timeout: 2,
            unbonding_period: 3,
            unbonding_safe_period: 4,
            unbond_batch_switch_time: 5,
        },
    };
    match init {
        ExecuteMsg::Init { core_params, .. } => assert_eq!(core_params.unbonding_period, 3),
        other => panic!("unexpected message: {:?}", other),
    }
    let fees = ExecuteMsg::UpdateConfig(UpdateConfigMsg::PuppeteerFees(FeesMsg {
        recv_fee: 1000,
        ack_fee: 2000,
        timeout_fee: 3000,
        register_fee: 4000,
    }));
    assert!(matches!(
        fees,
        ExecuteMsg::UpdateConfig(UpdateConfigMsg::PuppeteerFees(FeesMsg { ack_fee: 2000, .. }))
    ));
    assert_eq!(ExecuteMsg::Callback(CallbackMsg::PostInit {}), ExecuteMsg::Callback(CallbackMsg::PostInit {}));
    assert_eq!(QueryMsg::State {}, QueryMsg::State {});
    let metadata = DenomMetadata {
        description: "d".to_string(),
        denom_units: Vec::new(),
        base: "b".to_string(),
        display: "di".to_string(),
        name: "n".to_string(),
        symbol: "s".to_string(),
        uri: None,
        uri_hash: None,
    };
    assert_eq!(metadata.denom_units.len(), 0);
    let state = State {
        token_contract: "t".to_string(),
        core_contract: "c".to_string(),
        puppeteer_contract: "p".to_string(),
        withdrawal_voucher_contract: "wv".to_string(),
        withdrawal_manager_contract: "wm".to_string(),
        strategy_contract: "s".to_string(),
        validators_set_contract: "vs".to_string(),
        distribution_contract: "d".to_string(),
        rewards_manager_contract: "rm".to_string(),
    };
    assert_eq!(state.core_contract, "c".to_string());
}

#[test]
fn test_collaborator_messages_round_trip_their_fields() {
    let vs = ValidatorsSetInstantiateMsg {
        core: "core".to_string(),
        stats_contract: "stats".to_string(),
    };
    assert_eq!(vs.stats_contract, "stats".to_string());
    let vd = ValidatorData { valoper_address: "valoper1".to_string(), weight: 10 };
    assert_eq!(vd.weight, 10);
    let stats = ValidatorsStatsInstantiateMsg {
        connection_id: "connection_id".to_string(),
        port_id: "port_id".to_string(),
        profile_update_period: 10,
        info_update_period: 20,
        avg_block_time: 6,
        owner: "owner".to_string(),
    };
    assert_eq!(stats.avg_block_time, 6);
}
