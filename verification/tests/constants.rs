use staking_express::constants::{
    BONUS_EXTENSION_SECONDS, BONUS_EXTENSION_THRESHOLD, BONUS_INACTIVITY_THRESHOLD,
    BONUS_INITIAL_COUNTDOWN, BONUS_LAST_TEN_THRESHOLD, BPS_DENOMINATOR, FEE_BONUS_POOL_BPS,
    FEE_MATERIAL_DART_BPS, FEE_PLATFORM_BPS, FEE_REFERRAL_BPS, FEE_STAKERS_BPS, LAMPORTS_PER_SOL,
    MAX_LAST_TEN_INVESTORS, MIN_STAKE, MIN_UNSTAKE, PRECISION, REFERRAL_DISTRIBUTION_PERIOD,
    REWARD_PRECISION, TOTAL_FEE_BPS,
};

#[test]
fn test_fee_sum() {
    assert_eq!(
        FEE_STAKERS_BPS
            + FEE_PLATFORM_BPS
            + FEE_BONUS_POOL_BPS
            + FEE_REFERRAL_BPS
            + FEE_MATERIAL_DART_BPS,
        TOTAL_FEE_BPS,
        "Fee components must sum to exactly 1000 BPS"
    );
}

#[test]
fn test_total_fee_valid() {
    assert_eq!(TOTAL_FEE_BPS, 1000, "Total fee must be exactly 10%");
}

#[test]
fn test_amount_constants() {
    assert_eq!(LAMPORTS_PER_SOL, 1_000_000_000);
    assert_eq!(MIN_STAKE, 10_000_000);
    assert_eq!(MIN_UNSTAKE, 10_000_000);
    assert_eq!(BONUS_EXTENSION_THRESHOLD, 1_000_000_000);
    assert_eq!(BONUS_LAST_TEN_THRESHOLD, 1_000_000_000);
    assert_eq!(PRECISION, 1_000_000_000);
    assert_eq!(REWARD_PRECISION, 1_000_000_000_000);
    assert_eq!(BPS_DENOMINATOR, 10_000);
}

#[test]
fn test_fee_weights() {
    assert_eq!(FEE_STAKERS_BPS, 700);
    assert_eq!(FEE_PLATFORM_BPS, 100);
    assert_eq!(FEE_BONUS_POOL_BPS, 100);
    assert_eq!(FEE_REFERRAL_BPS, 50);
    assert_eq!(FEE_MATERIAL_DART_BPS, 50);
}

#[test]
fn test_timer_constants() {
    assert_eq!(BONUS_INITIAL_COUNTDOWN, 12 * 60 * 60);
    assert_eq!(BONUS_EXTENSION_SECONDS, 15 * 60);
    assert_eq!(BONUS_INACTIVITY_THRESHOLD, 6 * 60 * 60);
    assert_eq!(REFERRAL_DISTRIBUTION_PERIOD, 30 * 24 * 60 * 60);
    assert_eq!(MAX_LAST_TEN_INVESTORS, 10);
}
