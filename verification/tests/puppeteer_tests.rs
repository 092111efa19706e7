use cosmos_sdk_proto::prost::Message;
use liquid_staking::envelope::{AnyMsg, Coin, IbcFee, SubmitTx};
use liquid_staking::error::{Attribute, ContractError};
use liquid_staking::puppeteer::{
    Config, ConfigOptional, ExecuteMsg, InstantiateMsg, Puppeteer, PuppeteerResponse,
};
use liquid_staking::batch::{UnbondBatch, UnbondBatchStatus};
use liquid_staking::puppeteer::settle_undelegate_success;
use liquid_staking::txstate::{Transaction, TxState, TxStateStatus};

fn get_base_config() -> Config {
    Config {
        port_id: "port_id".to_string(),
        connection_id: "connection_id".to_string(),
        update_period: 60u64,
        remote_denom: "remote_denom".to_string(),
        allowed_senders: vec!["allowed_sender".to_string()],
        transfer_channel_id: "transfer_channel_id".to_string(),
        sdk_version: "0.45.0".to_string(),
        proxy_address: None,
    }
}

fn get_standard_fees() -> IbcFee {
    IbcFee {
        recv_fee: vec![Coin { denom: "local_denom".to_string(), amount: 1000u128 }],
        ack_fee: vec![Coin { denom: "local_denom".to_string(), amount: 2000u128 }],
        timeout_fee: vec![Coin { denom: "local_denom".to_string(), amount: 3000u128 }],
    }
}

fn base_init() -> Puppeteer {
    let msg = InstantiateMsg {
        owner: Some("owner".to_string()),
        connection_id: "connection_id".to_string(),
        port_id: "port_id".to_string(),
        update_period: 60u64,
        remote_denom: "remote_denom".to_string(),
        allowed_senders: vec!["allowed_sender".to_string()],
        transfer_channel_id: "transfer_channel_id".to_string(),
        sdk_version: "0.45.0".to_string(),
    };
    let mut puppeteer = Puppeteer::instantiate(msg, "sender".to_string());
    puppeteer.register_ica("ica_address".to_string());
    puppeteer.set_fees(get_standard_fees());
    puppeteer
}

#[test]
fn test_instantiate() {
    let msg = InstantiateMsg {
        owner: Some("owner".to_string()),
        connection_id: "connection_id".to_string(),
        port_id: "port_id".to_string(),
        update_period: 60u64,
        remote_denom: "remote_denom".to_string(),
        allowed_senders: vec!["allowed_sender".to_string()],
        transfer_channel_id: "transfer_channel_id".to_string(),
        sdk_version: "0.45.0".to_string(),
    };
    let puppeteer = Puppeteer::instantiate(msg, "sender".to_string());
    assert_eq!(puppeteer.owner, Some("owner".to_string()));
    assert_eq!(puppeteer.config, get_base_config());
}

#[test]
fn test_update_config() {
    let mut puppeteer = base_init();
    let msg = ExecuteMsg::UpdateConfig {
        new_config: ConfigOptional {
            update_period: Some(121u64),
            remote_denom: Some("new_remote_denom".to_string()),
            allowed_senders: Some(vec!["new_allowed_sender".to_string()]),
            transfer_channel_id: Some("new_transfer_channel_id".to_string()),
            connection_id: Some("new_connection_id".to_string()),
            port_id: Some("new_port_id".to_string()),
            proxy_address: Some("new_proxy_address".to_string()),
            sdk_version: Some("0.47.0".to_string()),
        },
    };
    let res = puppeteer.execute(&"owner".to_string(), msg).unwrap();
    let expected: Vec<(&str, &str)> = vec![
        ("proxy_address", "new_proxy_address"),
        ("remote_denom", "new_remote_denom"),
        ("connection_id", "new_connection_id"),
        ("port_id", "new_port_id"),
        ("update_period", "121"),
        ("allowed_senders", "1"),
        ("transfer_channel_id", "new_transfer_channel_id"),
        ("sdk_version", "0.47.0"),
    ];
    match res {
        PuppeteerResponse::ConfigUpdated { attributes } => {
            let got: Vec<(String, String)> =
                attributes.iter().map(|a: &Attribute| (a.key.clone(), a.value.clone())).collect();
            let want: Vec<(String, String)> =
                expected.iter().map(|(k, v)| (k.to_string(), v.to_string())).collect();
            assert_eq!(got, want);
        }
        other => panic!("unexpected response: {:?}", other),
    }
    assert_eq!(
        puppeteer.config,
        Config {
            port_id: "new_port_id".to_string(),
            connection_id: "new_connection_id".to_string(),
            update_period: 121u64,
            remote_denom: "new_remote_denom".to_string(),
            allowed_senders: vec!["new_allowed_sender".to_string()],
            transfer_channel_id: "new_transfer_channel_id".to_string(),
            sdk_version: "0.47.0".to_string(),
            proxy_address: Some("new_proxy_address".to_string()),
        }
    );
}

#[test]
fn test_update_config_unauthorized() {
    let mut puppeteer = base_init();
    let before = puppeteer.clone();
    let msg = ExecuteMsg::UpdateConfig {
        new_config: ConfigOptional {
            update_period: Some(121u64),
            remote_denom: None,
            allowed_senders: None,
            transfer_channel_id: None,
            connection_id: None,
            port_id: None,
            proxy_address: None,
            sdk_version: None,
        },
    };
    let err = puppeteer.execute(&"stranger".to_string(), msg).unwrap_err();
    assert_eq!(err, ContractError::Unauthorized);
    assert_eq!(puppeteer, before);
}

fn expected_delegate_any() -> AnyMsg {
    let msg = cosmos_sdk_proto::cosmos::staking::v1beta1::MsgDelegate {
        delegator_address: "ica_address".to_string(),
        validator_address: "valoper1".to_string(),
        amount: Some(cosmos_sdk_proto::cosmos::base::v1beta1::Coin {
            denom: "remote_denom".to_string(),
            amount: "1000".to_string(),
        }),
    };
    let mut buf = Vec::with_capacity(msg.encoded_len());
    msg.encode(&mut buf).unwrap();
    AnyMsg { type_url: "/cosmos.staking.v1beta1.MsgDelegate".to_string(), value: buf }
}

fn expected_undelegate_any() -> AnyMsg {
    let msg = cosmos_sdk_proto::cosmos::staking::v1beta1::MsgUndelegate {
        delegator_address: "ica_address".to_string(),
        validator_address: "valoper1".to_string(),
        amount: Some(cosmos_sdk_proto::cosmos::base::v1beta1::Coin {
            denom: "remote_denom".to_string(),
            amount: "1000".to_string(),
        }),
    };
    let mut buf = Vec::with_capacity(msg.encoded_len());
    msg.encode(&mut buf).unwrap();
    AnyMsg { type_url: "/cosmos.staking.v1beta1.MsgUndelegate".to_string(), value: buf }
}

#[test]
fn test_execute_delegate() {
    let mut puppeteer = base_init();
    let msg = ExecuteMsg::Delegate {
        items: vec![("valoper1".to_string(), 1000u128)],
        reply_to: "some_reply_to".to_string(),
        timeout: Some(100u64),
    };
    let res = puppeteer.execute(&"not_allowed_sender".to_string(), msg.clone());
    let err = res.unwrap_err();
    assert_eq!(err, ContractError::Unauthorized);
    assert_eq!(err.message(), "Sender is not allowed".to_string());
    let res = puppeteer.execute(&"allowed_sender".to_string(), msg).unwrap();
    assert_eq!(
        res,
        PuppeteerResponse::RemoteCall {
            submit: SubmitTx {
                connection_id: "connection_id".to_string(),
                interchain_account_id: "DROP".to_string(),
                msgs: vec![expected_delegate_any()],
                memo: "".to_string(),
                timeout: 100u64,
                fee: get_standard_fees(),
            }
        }
    );
    assert_eq!(
        puppeteer.tx_state,
        TxState {
            seq_id: None,
            status: TxStateStatus::InProgress,
            reply_to: Some("some_reply_to".to_string()),
            transaction: Some(Transaction::Delegate {
                interchain_account_id: "DROP".to_string(),
                denom: "remote_denom".to_string(),
                items: vec![("valoper1".to_string(), 1000u128)],
            }),
        }
    );
}

#[test]
fn test_execute_undelegate() {
    let mut puppeteer = base_init();
    let msg = ExecuteMsg::Undelegate {
        batch_id: 0u128,
        items: vec![("valoper1".to_string(), 1000u128)],
        reply_to: "some_reply_to".to_string(),
        timeout: Some(100u64),
    };
    let res = puppeteer.execute(&"not_allowed_sender".to_string(), msg.clone());
    let err = res.unwrap_err();
    assert_eq!(err, ContractError::Unauthorized);
    assert_eq!(err.message(), "Sender is not allowed".to_string());
    let res = puppeteer.execute(&"allowed_sender".to_string(), msg).unwrap();
    assert_eq!(
        res,
        PuppeteerResponse::RemoteCall {
            submit: SubmitTx {
                connection_id: "connection_id".to_string(),
                interchain_account_id: "DROP".to_string(),
                msgs: vec![expected_undelegate_any()],
                memo: "".to_string(),
                timeout: 100u64,
                fee: get_standard_fees(),
            }
        }
    );
    assert_eq!(
        puppeteer.tx_state,
        TxState {
            seq_id: None,
            status: TxStateStatus::InProgress,
            reply_to: Some("some_reply_to".to_string()),
            transaction: Some(Transaction::Undelegate {
                batch_id: 0u128,
                interchain_account_id: "DROP".to_string(),
                denom: "remote_denom".to_string(),
                items: vec![("valoper1".to_string(), 1000u128)],
            }),
        }
    );
}

#[test]
fn test_delegate_unauthorized_leaves_state_unchanged() {
    let mut puppeteer = base_init();
    let before = puppeteer.clone();
    let msg = ExecuteMsg::Delegate {
        items: vec![("valoper1".to_string(), 1000u128)],
        reply_to: "some_reply_to".to_string(),
        timeout: None,
    };
    let err = puppeteer.execute(&"not_allowed_sender".to_string(), msg).unwrap_err();
    assert_eq!(err, ContractError::Unauthorized);
    assert_eq!(puppeteer, before);
}

#[test]
fn test_reservation_is_exclusive() {
    let mut puppeteer = base_init();
    let msg = ExecuteMsg::Delegate {
        items: vec![("valoper1".to_string(), 1000u128)],
        reply_to: "some_reply_to".to_string(),
        timeout: Some(100u64),
    };
    puppeteer.execute(&"allowed_sender".to_string(), msg).unwrap();
    let before = puppeteer.clone();
    let second = ExecuteMsg::Undelegate {
        batch_id: 7u128,
        items: vec![("valoper2".to_string(), 5u128)],
        reply_to: "elsewhere".to_string(),
        timeout: None,
    };
    let err = puppeteer.execute(&"allowed_sender".to_string(), second).unwrap_err();
    assert_eq!(err, ContractError::AlreadyInProgress);
    assert_eq!(puppeteer, before);
}

#[test]
fn test_delegate_without_registered_account() {
    let msg = InstantiateMsg {
        owner: Some("owner".to_string()),
        connection_id: "connection_id".to_string(),
        port_id: "port_id".to_string(),
        update_period: 60u64,
        remote_denom: "remote_denom".to_string(),
        allowed_senders: vec!["allowed_sender".to_string()],
        transfer_channel_id: "transfer_channel_id".to_string(),
        sdk_version: "0.45.0".to_string(),
    };
    let mut puppeteer = Puppeteer::instantiate(msg, "sender".to_string());
    let err = puppeteer
        .execute(
            &"allowed_sender".to_string(),
            ExecuteMsg::Delegate {
                items: vec![("valoper1".to_string(), 1000u128)],
                reply_to: "some_reply_to".to_string(),
                timeout: None,
            },
        )
        .unwrap_err();
    assert_eq!(err, ContractError::IcaNotRegistered);
}

#[test]
fn test_delegate_end_to_end() {
    let mut puppeteer = base_init();
    let msg = ExecuteMsg::Delegate {
        items: vec![("valoper1".to_string(), 1000u128)],
        reply_to: "some_reply_to".to_string(),
        timeout: Some(100u64),
    };
    puppeteer.execute(&"allowed_sender".to_string(), msg).unwrap();
    assert_eq!(puppeteer.tx_state.status, TxStateStatus::InProgress);
    assert!(puppeteer.handle_reply(17u64));
    assert_eq!(puppeteer.tx_state.seq_id, Some(17u64));
    let (transaction, reply_to) = puppeteer.sudo_response().unwrap();
    assert_eq!(reply_to, Some("some_reply_to".to_string()));
    assert_eq!(
        transaction,
        Transaction::Delegate {
            interchain_account_id: "DROP".to_string(),
            denom: "remote_denom".to_string(),
            items: vec![("valoper1".to_string(), 1000u128)],
        }
    );
    assert_eq!(puppeteer.tx_state.status, TxStateStatus::Idle);
    assert_eq!(puppeteer.tx_state.transaction, None);
    assert_eq!(puppeteer.delegations.len(), 1);
    assert_eq!(puppeteer.delegations[0].validator, "valoper1".to_string());
    assert_eq!(puppeteer.delegations[0].stake, 1000u128);
    // a stray completion with a free slot is a no-op
    assert_eq!(puppeteer.sudo_response(), None);
}

#[test]
fn test_delegate_then_undelegate_updates_ledger() {
    let mut puppeteer = base_init();
    puppeteer
        .execute(
            &"allowed_sender".to_string(),
            ExecuteMsg::Delegate {
                items: vec![("valoper1".to_string(), 1000u128), ("valoper2".to_string(), 40u128)],
                reply_to: "r".to_string(),
                timeout: None,
            },
        )
        .unwrap();
    puppeteer.sudo_response().unwrap();
    puppeteer
        .execute(
            &"allowed_sender".to_string(),
            ExecuteMsg::Undelegate {
                batch_id: 1u128,
                items: vec![("valoper1".to_string(), 300u128), ("valoper2".to_string(), 100u128)],
                reply_to: "r".to_string(),
                timeout: None,
            },
        )
        .unwrap();
    puppeteer.sudo_response().unwrap();
    assert_eq!(puppeteer.delegations[0].validator, "valoper1".to_string());
    assert_eq!(puppeteer.delegations[0].stake, 700u128);
    // undelegation shrinks saturating at zero and never invents a line
    assert_eq!(puppeteer.delegations[1].validator, "valoper2".to_string());
    assert_eq!(puppeteer.delegations[1].stake, 0u128);
    assert_eq!(puppeteer.delegations.len(), 2);
}

#[test]
fn test_sudo_error_records_failure() {
    let mut puppeteer = base_init();
    puppeteer
        .execute(
            &"allowed_sender".to_string(),
            ExecuteMsg::Delegate {
                items: vec![("valoper1".to_string(), 1000u128)],
                reply_to: "some_reply_to".to_string(),
                timeout: None,
            },
        )
        .unwrap();
    let reply = puppeteer.sudo_error("remote failure".to_string()).unwrap();
    assert_eq!(reply, Some("some_reply_to".to_string()));
    assert_eq!(puppeteer.tx_state.status, TxStateStatus::Error("remote failure".to_string()));
    assert_eq!(puppeteer.delegations.len(), 0);
    // the failure stays visible until the next successful reservation
    let again = puppeteer
        .execute(
            &"allowed_sender".to_string(),
            ExecuteMsg::Delegate {
                items: vec![("valoper1".to_string(), 5u128)],
                reply_to: "r2".to_string(),
                timeout: None,
            },
        );
    assert!(again.is_ok());
    assert_eq!(puppeteer.tx_state.status, TxStateStatus::InProgress);
}

#[test]
fn test_sudo_timeout_records_timeout() {
    let mut puppeteer = base_init();
    puppeteer
        .execute(
            &"allowed_sender".to_string(),
            ExecuteMsg::Delegate {
                items: vec![("valoper1".to_string(), 1000u128)],
                reply_to: "some_reply_to".to_string(),
                timeout: Some(100u64),
            },
        )
        .unwrap();
    let reply = puppeteer.sudo_timeout().unwrap();
    assert_eq!(reply, Some("some_reply_to".to_string()));
    assert_eq!(puppeteer.tx_state.status, TxStateStatus::Error("Timeout".to_string()));
}

#[test]
fn test_default_timeout_applies() {
    let mut puppeteer = base_init();
    let res = puppeteer
        .execute(
            &"allowed_sender".to_string(),
            ExecuteMsg::Delegate {
                items: vec![("valoper1".to_string(), 1000u128)],
                reply_to: "r".to_string(),
                timeout: None,
            },
        )
        .unwrap();
    match res {
        PuppeteerResponse::RemoteCall { submit } => {
            assert_eq!(submit.timeout, liquid_staking::puppeteer::DEFAULT_TIMEOUT_SECONDS);
        }
        other => panic!("unexpected response: {:?}", other),
    }
}

#[test]
fn test_settle_undelegate_success_advances_batch() {
    let mut puppeteer = base_init();
    puppeteer
        .execute(
            &"allowed_sender".to_string(),
            ExecuteMsg::Delegate {
                items: vec![("valoper1".to_string(), 1000u128)],
                reply_to: "r".to_string(),
                timeout: None,
            },
        )
        .unwrap();
    puppeteer.sudo_response().unwrap();
    let mut batch = UnbondBatch::new(5, 0);
    batch.start_collecting();
    batch.add_request(300);
    batch.close();
    puppeteer
        .execute(
            &"allowed_sender".to_string(),
            ExecuteMsg::Undelegate {
                batch_id: 5u128,
                items: vec![("valoper1".to_string(), 300u128)],
                reply_to: "core".to_string(),
                timeout: None,
            },
        )
        .unwrap();
    let (transaction, reply_to) = settle_undelegate_success(&mut puppeteer, &mut batch, 1234u64);
    assert_eq!(reply_to, Some("core".to_string()));
    assert!(matches!(transaction, Transaction::Undelegate { batch_id: 5u128, .. }));
    assert_eq!(batch.status, UnbondBatchStatus::Unbonding);
    assert_eq!(batch.unbond_at, Some(1234u64));
    assert_eq!(puppeteer.tx_state.status, TxStateStatus::Idle);
    assert_eq!(puppeteer.delegations[0].stake, 700u128);
}

#[test]
fn test_handle_reply_with_free_slot_is_a_no_op() {
    let mut puppeteer = base_init();
    let before = puppeteer.clone();
    assert!(!puppeteer.handle_reply(9u64));
    assert_eq!(puppeteer, before);
    assert_eq!(puppeteer.sudo_error("late".to_string()), None);
    assert_eq!(puppeteer.sudo_timeout(), None);
    assert_eq!(puppeteer, before);
}
