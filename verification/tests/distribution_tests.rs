use liquid_staking::distribution::{Delegation, IdealDelegation, calc_deposit, calc_withdraw};
use liquid_staking::error::ContractError;
use liquid_staking::interceptor::AccountDelegation;
use liquid_staking::envelope::Coin;
use liquid_staking::numbers::FixedRatio;
use liquid_staking::strategy::{prepare_delegation_data, query_calc_deposit, query_calc_withdraw};
use liquid_staking::validators_set::ValidatorInfo;

fn dl(addr: &str, stake: u128, weight: u64) -> Delegation {
    Delegation { valoper_address: addr.to_string(), stake, weight }
}

fn ideal(addr: &str, amount: u128) -> IdealDelegation {
    IdealDelegation { valoper_address: addr.to_string(), ideal_stake: amount }
}

#[test]
fn test_calc_deposit_even_split() {
    let delegations = vec![dl("v1", 0, 1), dl("v2", 0, 1)];
    let out = calc_deposit(1000, &delegations).unwrap();
    assert_eq!(out, vec![ideal("v1", 500), ideal("v2", 500)]);
}

#[test]
fn test_calc_deposit_steers_toward_equal_stake() {
    let delegations = vec![dl("v1", 900, 1), dl("v2", 100, 1)];
    let out = calc_deposit(1000, &delegations).unwrap();
    let total: u128 = out.iter().map(|i| i.ideal_stake).sum();
    assert_eq!(total, 1000);
    // the validator with the lower stake receives at least as much
    assert!(out[1].ideal_stake >= out[0].ideal_stake);
    assert_eq!(out, vec![ideal("v1", 100), ideal("v2", 900)]);
}

#[test]
fn test_calc_deposit_rounding_remainder_goes_to_largest_shortfall() {
    let delegations = vec![dl("v1", 0, 1), dl("v2", 0, 1), dl("v3", 0, 1)];
    let out = calc_deposit(10, &delegations).unwrap();
    let total: u128 = out.iter().map(|i| i.ideal_stake).sum();
    assert_eq!(total, 10);
    assert_eq!(out, vec![ideal("v1", 4), ideal("v2", 3), ideal("v3", 3)]);
}

#[test]
fn test_calc_deposit_zero_total_weight() {
    let delegations = vec![dl("v1", 5, 0), dl("v2", 7, 0)];
    let err = calc_deposit(1000, &delegations).unwrap_err();
    assert_eq!(err, ContractError::DistributionError);
    let err = calc_deposit(1000, &Vec::new()).unwrap_err();
    assert_eq!(err, ContractError::DistributionError);
}

#[test]
fn test_calc_deposit_respects_weights() {
    let delegations = vec![dl("v1", 0, 3), dl("v2", 0, 1)];
    let out = calc_deposit(1000, &delegations).unwrap();
    assert_eq!(out, vec![ideal("v1", 750), ideal("v2", 250)]);
}

#[test]
fn test_calc_withdraw_takes_from_overweight() {
    let delegations = vec![dl("v1", 600, 1), dl("v2", 400, 1)];
    let out = calc_withdraw(200, &delegations).unwrap();
    assert_eq!(out, vec![ideal("v1", 200), ideal("v2", 0)]);
}

#[test]
fn test_calc_withdraw_everything() {
    let delegations = vec![dl("v1", 300, 1), dl("v2", 100, 1)];
    let out = calc_withdraw(400, &delegations).unwrap();
    assert_eq!(out, vec![ideal("v1", 300), ideal("v2", 100)]);
    let total: u128 = out.iter().map(|i| i.ideal_stake).sum();
    assert_eq!(total, 400);
}

#[test]
fn test_calc_withdraw_never_exceeds_stake() {
    let delegations = vec![dl("v1", 50, 1), dl("v2", 1000, 1)];
    let out = calc_withdraw(900, &delegations).unwrap();
    let total: u128 = out.iter().map(|i| i.ideal_stake).sum();
    assert_eq!(total, 900);
    assert!(out[0].ideal_stake <= 50);
    assert!(out[1].ideal_stake <= 1000);
}

fn vinfo(addr: &str, weight: u64) -> ValidatorInfo {
    ValidatorInfo {
        valoper_address: addr.to_string(),
        weight,
        last_processed_remote_height: None,
        last_processed_local_height: None,
        last_validated_height: None,
        last_commission_in_range: None,
        uptime: FixedRatio { atomics: 0 },
        tombstone: false,
        jailed_number: None,
    }
}

fn adl(validator: &str, denom: &str, amount: u128) -> AccountDelegation {
    AccountDelegation {
        delegator: "ica_address".to_string(),
        validator: validator.to_string(),
        amount: Coin { denom: denom.to_string(), amount },
    }
}

#[test]
fn test_prepare_delegation_data_joins_by_validator_and_denom() {
    let ledger = vec![
        adl("v1", "other_denom", 50),
        adl("v1", "remote_denom", 100),
        adl("v3", "remote_denom", 7),
    ];
    let validator_set = vec![vinfo("v1", 10), vinfo("v2", 20)];
    let out = prepare_delegation_data(&ledger, &"remote_denom".to_string(), &validator_set);
    assert_eq!(out, vec![dl("v1", 100, 10), dl("v2", 0, 20)]);
}

#[test]
fn test_query_calc_deposit_through_strategy() {
    let ledger = vec![adl("v1", "remote_denom", 900), adl("v2", "remote_denom", 100)];
    let validator_set = vec![vinfo("v1", 1), vinfo("v2", 1)];
    let out =
        query_calc_deposit(1000, &ledger, &"remote_denom".to_string(), &validator_set).unwrap();
    assert_eq!(out, vec![ideal("v1", 100), ideal("v2", 900)]);
}

#[test]
fn test_query_calc_withdraw_through_strategy() {
    let ledger = vec![adl("v1", "remote_denom", 600), adl("v2", "remote_denom", 400)];
    let validator_set = vec![vinfo("v1", 1), vinfo("v2", 1)];
    let out =
        query_calc_withdraw(200, &ledger, &"remote_denom".to_string(), &validator_set).unwrap();
    assert_eq!(out, vec![ideal("v1", 200), ideal("v2", 0)]);
}

#[test]
fn test_strategy_query_fails_on_zero_total_weight() {
    let ledger = vec![adl("v1", "remote_denom", 900)];
    let validator_set = vec![vinfo("v1", 0)];
    let err =
        query_calc_deposit(10, &ledger, &"remote_denom".to_string(), &validator_set).unwrap_err();
    assert_eq!(err, ContractError::DistributionError);
}

#[test]
fn test_calc_deposit_serves_largest_shortfall_first() {
    // targets are 1000 each; only the second validator is below target,
    // so a deposit smaller than its shortfall goes to it alone
    let delegations = vec![dl("v1", 900, 1), dl("v2", 100, 1)];
    let out = calc_deposit(500, &delegations).unwrap();
    assert_eq!(out, vec![ideal("v1", 0), ideal("v2", 500)]);
}
