use liquid_staking::batch::{UnbondBatch, UnbondBatchStatus};
use liquid_staking::numbers::{FixedRatio, RATIO_FRACTIONAL, format_u128, format_u64, parse_u128};

#[test]
fn test_batch_lifecycle_runs_forward() {
    let mut batch = UnbondBatch::new(3, 1700000000u64);
    assert_eq!(batch.status, UnbondBatchStatus::New);
    batch.start_collecting();
    assert_eq!(batch.status, UnbondBatchStatus::Collecting);
    batch.add_request(600);
    batch.add_request(400);
    assert_eq!(batch.total_requested, 1000);
    batch.close();
    assert_eq!(batch.status, UnbondBatchStatus::Submitted);
    batch.start_unbonding(1700001000u64);
    assert_eq!(batch.status, UnbondBatchStatus::Unbonding);
    assert_eq!(batch.unbond_at, Some(1700001000u64));
    batch.settle_unbonded(900);
    assert_eq!(batch.status, UnbondBatchStatus::Unbonded);
    assert_eq!(batch.total_unbonded, Some(900));
    // 900 of 1000 requested: a slashing ratio of 0.9
    assert_eq!(
        batch.slashing_effect,
        Some(FixedRatio { atomics: 9 * (RATIO_FRACTIONAL / 10) })
    );
    batch.start_withdrawal();
    assert_eq!(batch.status, UnbondBatchStatus::WithdrawalInProgress);
    batch.finish_withdrawal();
    assert_eq!(batch.status, UnbondBatchStatus::Withdrawn);
}

#[test]
fn test_batch_slashing_effect_saturates_at_one() {
    let mut batch = UnbondBatch::new(4, 0);
    batch.start_collecting();
    batch.add_request(1000);
    batch.close();
    batch.start_unbonding(10);
    batch.settle_unbonded(1200);
    assert_eq!(batch.slashing_effect, Some(FixedRatio { atomics: RATIO_FRACTIONAL }));
}

#[test]
fn test_fixed_ratio_from_ratio_and_apply() {
    let r = FixedRatio::from_ratio_capped(9, 10);
    assert_eq!(r.atomics, 9 * (RATIO_FRACTIONAL / 10));
    assert_eq!(r.apply_floor(1000), 900);
    // floored: 2/3 of 100 is 66
    let t = FixedRatio::from_ratio_capped(2, 3);
    assert_eq!(t.apply_floor(100), 66);
    let one = FixedRatio::from_ratio_capped(7, 7);
    assert_eq!(one.atomics, RATIO_FRACTIONAL);
    assert_eq!(one.apply_floor(12345), 12345);
}

#[test]
fn test_format_decimal() {
    assert_eq!(format_u128(0), "0".to_string());
    assert_eq!(format_u128(121), "121".to_string());
    assert_eq!(format_u64(60), "60".to_string());
    assert_eq!(
        format_u128(u128::MAX),
        "340282366920938463463374607431768211455".to_string()
    );
}

#[test]
fn test_parse_decimal() {
    assert_eq!(parse_u128("0"), Some(0));
    assert_eq!(parse_u128("1000"), Some(1000));
    assert_eq!(parse_u128(""), None);
    assert_eq!(parse_u128("12a"), None);
    assert_eq!(parse_u128("-5"), None);
    assert_eq!(
        parse_u128("340282366920938463463374607431768211455"),
        Some(u128::MAX)
    );
    assert_eq!(parse_u128("340282366920938463463374607431768211456"), None);
}

#[test]
fn test_format_then_parse_round_trip() {
    for n in [0u128, 1, 9, 10, 99, 1000, 123456789, u128::MAX] {
        assert_eq!(parse_u128(&format_u128(n)), Some(n));
    }
}
