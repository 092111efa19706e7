use liquid_staking::batch::{UnbondBatch, UnbondBatchStatus};
use liquid_staking::error::ContractError;
use liquid_staking::numbers::{FixedRatio, RATIO_FRACTIONAL};
use liquid_staking::withdrawal_manager::{
    Config, Cw721ReceiveMsg, ExecuteMsg, InstantiateMsg, QueryMsg, VoucherExtension,
    WithdrawalManagerResponse, execute, execute_receive_nft, execute_update_config, instantiate,
    query,
};

fn base_config() -> Config {
    Config {
        core_contract: "core_contract".to_string(),
        withdrawal_voucher_contract: "voucher_contract".to_string(),
        base_denom: "base_denom".to_string(),
        owner: "owner".to_string(),
    }
}

fn unbonded_batch(effect_tenths: u128) -> UnbondBatch {
    UnbondBatch {
        id: 0u128,
        status: UnbondBatchStatus::Unbonded,
        total_requested: 1000u128,
        total_unbonded: Some(effect_tenths * 100u128),
        slashing_effect: Some(FixedRatio { atomics: effect_tenths * (RATIO_FRACTIONAL / 10) }),
        created_at: 0u64,
        unbond_at: Some(100u64),
    }
}

fn receive_msg() -> Cw721ReceiveMsg {
    Cw721ReceiveMsg { sender: "holder".to_string(), token_id: "1".to_string(), msg: Vec::new() }
}

fn extension() -> Option<VoucherExtension> {
    Some(VoucherExtension { batch_id: "0".to_string(), expected_amount: 1000u128 })
}

#[test]
fn test_instantiate_withdrawal_manager() {
    let (config, attrs) = instantiate(InstantiateMsg {
        owner: "owner".to_string(),
        core_contract: "core_contract".to_string(),
        voucher_contract: "voucher_contract".to_string(),
        base_denom: "base_denom".to_string(),
    });
    assert_eq!(config, base_config());
    assert_eq!(attrs.len(), 5);
    assert_eq!(query(&config, QueryMsg::Config {}), &base_config());
}

#[test]
fn test_redeem_slashed_batch_pays_out_scaled_amount() {
    let config = base_config();
    let batch = unbonded_batch(9);
    let (send, attrs) = execute_receive_nft(
        &config,
        &"voucher_contract".to_string(),
        receive_msg(),
        extension(),
        &batch,
    )
    .unwrap();
    assert_eq!(send.amount, 900u128);
    assert_eq!(send.denom, "base_denom".to_string());
    assert_eq!(send.to_address, "holder".to_string());
    let pairs: Vec<(String, String)> =
        attrs.iter().map(|a| (a.key.clone(), a.value.clone())).collect();
    assert_eq!(
        pairs,
        vec![
            ("action".to_string(), "receive_nft".to_string()),
            ("batch_id".to_string(), "0".to_string()),
            ("payout_amount".to_string(), "900".to_string()),
        ]
    );
}

#[test]
fn test_redeem_unslashed_batch_pays_expected_amount() {
    let config = base_config();
    let batch = unbonded_batch(10);
    let (send, _) = execute_receive_nft(
        &config,
        &"voucher_contract".to_string(),
        receive_msg(),
        extension(),
        &batch,
    )
    .unwrap();
    assert_eq!(send.amount, 1000u128);
}

#[test]
fn test_redeem_requires_unbonded_batch() {
    let config = base_config();
    let mut batch = unbonded_batch(9);
    batch.status = UnbondBatchStatus::Submitted;
    batch.slashing_effect = None;
    batch.total_unbonded = None;
    let err = execute_receive_nft(
        &config,
        &"voucher_contract".to_string(),
        receive_msg(),
        extension(),
        &batch,
    )
    .unwrap_err();
    assert_eq!(err, ContractError::BatchIsNotUnbonded);
}

#[test]
fn test_redeem_rejects_unknown_sender() {
    let config = base_config();
    let batch = unbonded_batch(9);
    let err = execute_receive_nft(
        &config,
        &"somebody_else".to_string(),
        receive_msg(),
        extension(),
        &batch,
    )
    .unwrap_err();
    assert_eq!(err, ContractError::Unauthorized);
}

#[test]
fn test_redeem_rejects_missing_extension() {
    let config = base_config();
    let batch = unbonded_batch(9);
    let err =
        execute_receive_nft(&config, &"voucher_contract".to_string(), receive_msg(), None, &batch)
            .unwrap_err();
    assert_eq!(err, ContractError::InvalidNFT { reason: "extension is not set".to_string() });
}

#[test]
fn test_redeem_rejects_unparseable_batch_id() {
    let config = base_config();
    let batch = unbonded_batch(9);
    let ext = Some(VoucherExtension { batch_id: "zero".to_string(), expected_amount: 1000u128 });
    let err = execute_receive_nft(
        &config,
        &"voucher_contract".to_string(),
        receive_msg(),
        ext,
        &batch,
    )
    .unwrap_err();
    assert_eq!(err, ContractError::InvalidNFT { reason: "invalid batch_id".to_string() });
}

#[test]
fn test_withdrawal_manager_update_config() {
    let mut config = base_config();
    let err = execute_update_config(
        &mut config,
        &"stranger".to_string(),
        Some("new_owner".to_string()),
        None,
        None,
    )
    .unwrap_err();
    assert_eq!(err, ContractError::Unauthorized);
    assert_eq!(config, base_config());
    let attrs = execute_update_config(
        &mut config,
        &"owner".to_string(),
        None,
        Some("new_core".to_string()),
        None,
    )
    .unwrap();
    assert_eq!(attrs.len(), 2);
    assert_eq!(config.core_contract, "new_core".to_string());
    assert_eq!(config.owner, "owner".to_string());
    assert_eq!(config.base_denom, "base_denom".to_string());
}

#[test]
fn test_execute_dispatches_receive_nft() {
    let mut config = base_config();
    let batch = unbonded_batch(9);
    let res = execute(
        &mut config,
        &"voucher_contract".to_string(),
        ExecuteMsg::ReceiveNft(receive_msg()),
        extension(),
        &batch,
    )
    .unwrap();
    match res {
        WithdrawalManagerResponse::Payout(send, _) => assert_eq!(send.amount, 900u128),
        other => panic!("unexpected response: {:?}", other),
    }
}

#[test]
fn test_redeem_defensively_rejects_missing_slashing_effect() {
    let config = base_config();
    let mut batch = unbonded_batch(9);
    batch.slashing_effect = None;
    batch.total_unbonded = None;
    let err = execute_receive_nft(
        &config,
        &"voucher_contract".to_string(),
        receive_msg(),
        extension(),
        &batch,
    )
    .unwrap_err();
    assert_eq!(err, ContractError::BatchSlashingEffectIsEmpty);
}
