use staking_express::errors::StakingError;
use staking_express::helpers::{
    add_to_last_ten, calculate_bonus_distribution, calculate_bps_percentage,
    calculate_referral_distribution, check_bonus_expiry, check_inactivity_trigger,
    check_referral_distribution_due, extend_bonus_countdown, get_pending_rewards,
    update_reward_per_share,
};
use staking_express::identity::Identity;
use staking_express::state::{
    BonusPool, LastTenInvestor, ReferralPool, StakingPool, UserStakeState,
};

#[test]
fn test_bonus_distribution_40_40_20() {
    let total = 1_000_000_000; // 1 SOL

    let (last_ten, stakers, carry) = calculate_bonus_distribution(total).unwrap();

    // 40% = 400_000_000
    // 40% = 400_000_000
    // 20% = 200_000_000
    assert_eq!(last_ten, 400_000_000);
    assert_eq!(stakers, 400_000_000);
    assert_eq!(carry, 200_000_000);

    // Sum should equal total
    assert_eq!(last_ten + stakers + carry, total);
}

#[test]
fn test_referral_distribution_50_50() {
    let total = 1_000_000_000; // 1 SOL

    let (stakers, carry) = calculate_referral_distribution(total).unwrap();

    // 50% each = 500_000_000
    assert_eq!(stakers, 500_000_000);
    assert_eq!(carry, 500_000_000);

    assert_eq!(stakers + carry, total);
}

fn id(n: u8) -> Identity {
    Identity::new([n; 32])
}

fn pool(total_staked: u64, reward_per_share: u128) -> StakingPool {
    StakingPool {
        config: id(1),
        total_staked,
        reward_per_share,
        last_update_timestamp: 5,
        bump: 254,
    }
}

fn bonus_pool(expiry_timestamp: i64, last_investment_timestamp: i64) -> BonusPool {
    BonusPool {
        staking_pool: id(2),
        balance: 77,
        expiry_timestamp,
        last_investment_timestamp,
        last_ten_investors: [LastTenInvestor::default(); 10],
        current_position: 0,
        investor_count: 0,
        bump: 253,
    }
}

fn position(staked_amount: u64, reward_debt: u128) -> UserStakeState {
    UserStakeState {
        user: id(9),
        pool: id(2),
        staked_amount,
        reward_debt,
        stake_timestamp: 1,
        last_claim_timestamp: 2,
        referrer: None,
        bump: 250,
    }
}

#[test]
fn test_reward_injection_scenario() {
    let mut p = pool(100_000_000_000, 0);
    assert_eq!(update_reward_per_share(&mut p, 7_000_000_000), Ok(()));
    assert_eq!(p, pool(100_000_000_000, 70_000_000_000));

    let staker = position(10_000_000_000, 0);
    assert_eq!(get_pending_rewards(&staker, &p), Ok(700_000_000));
}

#[test]
fn test_reward_injection_adds_to_what_is_there() {
    let mut p = pool(3, 10);
    assert_eq!(update_reward_per_share(&mut p, 1), Ok(()));
    assert_eq!(p, pool(3, 333_333_333_343));
    assert_eq!(update_reward_per_share(&mut p, 0), Ok(()));
    assert_eq!(p, pool(3, 333_333_333_343));
}

#[test]
fn test_reward_injection_into_empty_pool_is_a_no_op() {
    let mut p = pool(0, 42);
    assert_eq!(update_reward_per_share(&mut p, 7_000_000_000), Ok(()));
    assert_eq!(p, pool(0, 42));
}

#[test]
fn test_reward_injection_overflow_leaves_pool_unchanged() {
    let mut p = pool(1, u128::MAX - 999_999_999_999);
    assert_eq!(update_reward_per_share(&mut p, 1), Err(StakingError::MathOverflow));
    assert_eq!(p, pool(1, u128::MAX - 999_999_999_999));

    let mut q = pool(1, u128::MAX - 1_000_000_000_000);
    assert_eq!(update_reward_per_share(&mut q, 1), Ok(()));
    assert_eq!(q, pool(1, u128::MAX));
}

#[test]
fn test_pending_rewards_of_a_position() {
    let p = pool(100_000_000_000, 70_000_000_000);
    assert_eq!(get_pending_rewards(&position(10_000_000_000, 0), &p), Ok(700_000_000));
    assert_eq!(get_pending_rewards(&position(10_000_000_000, 700_000_000), &p), Ok(0));
    assert_eq!(get_pending_rewards(&position(10_000_000_000, 800_000_000), &p), Ok(0));
    assert_eq!(get_pending_rewards(&position(0, 0), &p), Ok(0));
    assert_eq!(
        get_pending_rewards(&position(2, 0), &pool(1, u128::MAX)),
        Err(StakingError::MathOverflow)
    );
}

#[test]
fn test_extend_bonus_countdown() {
    let mut b = bonus_pool(1_000, 10);
    assert_eq!(extend_bonus_countdown(&mut b), Ok(()));
    assert_eq!(b, bonus_pool(1_900, 10));

    let mut edge = bonus_pool(i64::MAX - 900, 10);
    assert_eq!(extend_bonus_countdown(&mut edge), Ok(()));
    assert_eq!(edge, bonus_pool(i64::MAX, 10));

    let mut over = bonus_pool(i64::MAX - 899, 10);
    assert_eq!(extend_bonus_countdown(&mut over), Err(StakingError::MathOverflow));
    assert_eq!(over, bonus_pool(i64::MAX - 899, 10));

    let mut negative = bonus_pool(-1_000, 10);
    assert_eq!(extend_bonus_countdown(&mut negative), Ok(()));
    assert_eq!(negative, bonus_pool(-100, 10));
}

#[test]
fn test_last_ten_buffer_fills_then_overwrites_oldest() {
    let mut b = bonus_pool(0, 0);
    for n in 0..10u8 {
        assert_eq!(add_to_last_ten(&mut b, id(100 + n), 1_000 + n as u64), Ok(n));
        assert_eq!(b.investor_count, n + 1);
        assert_eq!(b.current_position, (n + 1) % 10);
    }
    for n in 0..10usize {
        assert_eq!(
            b.last_ten_investors[n],
            LastTenInvestor { investor: id(100 + n as u8), amount: 1_000 + n as u64 }
        );
    }
    // the buffer is full: the oldest entries go first
    assert_eq!(add_to_last_ten(&mut b, id(200), 5), Ok(0));
    assert_eq!(add_to_last_ten(&mut b, id(201), 6), Ok(1));
    assert_eq!(b.investor_count, 10);
    assert_eq!(b.current_position, 2);
    assert_eq!(b.last_ten_investors[0], LastTenInvestor { investor: id(200), amount: 5 });
    assert_eq!(b.last_ten_investors[1], LastTenInvestor { investor: id(201), amount: 6 });
    for n in 2..10usize {
        assert_eq!(
            b.last_ten_investors[n],
            LastTenInvestor { investor: id(100 + n as u8), amount: 1_000 + n as u64 }
        );
    }
    // nothing else changed
    assert_eq!(b.balance, 77);
    assert_eq!(b.expiry_timestamp, 0);
    assert_eq!(b.last_investment_timestamp, 0);
    assert_eq!(b.staking_pool, id(2));
    assert_eq!(b.bump, 253);
}

#[test]
fn test_last_ten_buffer_keeps_repeated_investors() {
    let mut b = bonus_pool(0, 0);
    assert_eq!(add_to_last_ten(&mut b, id(7), 10), Ok(0));
    assert_eq!(add_to_last_ten(&mut b, id(7), 20), Ok(1));
    assert_eq!(b.investor_count, 2);
    assert_eq!(b.last_ten_investors[0], LastTenInvestor { investor: id(7), amount: 10 });
    assert_eq!(b.last_ten_investors[1], LastTenInvestor { investor: id(7), amount: 20 });
    assert!(b.is_well_formed());
}

#[test]
fn test_bonus_pool_well_formedness() {
    let mut b = bonus_pool(0, 0);
    assert!(b.is_well_formed());
    b.current_position = 9;
    b.investor_count = 10;
    assert!(b.is_well_formed());
    b.current_position = 10;
    assert!(!b.is_well_formed());
    b.current_position = 0;
    b.investor_count = 11;
    assert!(!b.is_well_formed());
}

#[test]
fn test_bonus_expiry() {
    let b = bonus_pool(1_000, 0);
    assert!(!check_bonus_expiry(&b, 999));
    assert!(check_bonus_expiry(&b, 1_000));
    assert!(check_bonus_expiry(&b, 1_001));
    assert!(check_bonus_expiry(&bonus_pool(i64::MIN, 0), i64::MIN));
    assert!(!check_bonus_expiry(&bonus_pool(i64::MAX, 0), i64::MAX - 1));
}

#[test]
fn test_inactivity_trigger() {
    let b = bonus_pool(0, 1_000);
    assert!(!check_inactivity_trigger(&b, 1_000));
    assert!(!check_inactivity_trigger(&b, 1_000 + 21_599));
    assert!(check_inactivity_trigger(&b, 1_000 + 21_600));
    assert!(check_inactivity_trigger(&b, 1_000 + 21_601));
    assert!(!check_inactivity_trigger(&b, 0));
}

#[test]
fn test_inactivity_trigger_at_the_ends_of_time() {
    // the elapsed time does not fit in an i64; it is still compared exactly
    assert!(check_inactivity_trigger(&bonus_pool(0, i64::MIN), i64::MAX));
    assert!(check_inactivity_trigger(&bonus_pool(0, -1), i64::MAX));
    assert!(!check_inactivity_trigger(&bonus_pool(0, i64::MAX), i64::MIN));
    assert!(!check_inactivity_trigger(&bonus_pool(0, 1), i64::MIN));
    assert!(check_inactivity_trigger(&bonus_pool(0, i64::MIN), i64::MIN + 21_600));
    assert!(!check_inactivity_trigger(&bonus_pool(0, i64::MIN), i64::MIN + 21_599));
}

#[test]
fn test_bonus_split_is_exact_on_awkward_balances() {
    assert_eq!(calculate_bonus_distribution(0), Ok((0, 0, 0)));
    assert_eq!(calculate_bonus_distribution(1), Ok((0, 0, 1)));
    assert_eq!(calculate_bonus_distribution(2), Ok((0, 0, 2)));
    assert_eq!(calculate_bonus_distribution(3), Ok((1, 1, 1)));
    assert_eq!(calculate_bonus_distribution(4), Ok((1, 1, 2)));
    assert_eq!(calculate_bonus_distribution(7), Ok((2, 2, 3)));
    assert_eq!(calculate_bonus_distribution(9_999), Ok((3_999, 3_999, 2_001)));
    assert_eq!(
        calculate_bonus_distribution(u64::MAX),
        Ok((7_378_697_629_483_820_646, 7_378_697_629_483_820_646, 3_689_348_814_741_910_323))
    );
    let balances: [u64; 6] = [5, 11, 12_345, 999_999_999, 1 << 63, u64::MAX - 1];
    for balance in balances {
        let (last_ten, stakers, carry) = calculate_bonus_distribution(balance).unwrap();
        assert_eq!(last_ten as u128 + stakers as u128 + carry as u128, balance as u128);
        assert_eq!(last_ten, stakers);
        assert_eq!(last_ten as u128, balance as u128 * 4_000 / 10_000);
    }
}

#[test]
fn test_referral_split_is_exact_on_awkward_balances() {
    assert_eq!(calculate_referral_distribution(0), Ok((0, 0)));
    assert_eq!(calculate_referral_distribution(1), Ok((0, 1)));
    assert_eq!(calculate_referral_distribution(2), Ok((1, 1)));
    assert_eq!(calculate_referral_distribution(3), Ok((1, 2)));
    assert_eq!(
        calculate_referral_distribution(u64::MAX),
        Ok((9_223_372_036_854_775_807, 9_223_372_036_854_775_808))
    );
}

#[test]
fn test_referral_distribution_due() {
    let r = ReferralPool {
        staking_pool: id(2),
        balance: 0,
        next_distribution_timestamp: 2_592_000,
        last_distribution_timestamp: 0,
        total_distributed: 0,
        bump: 1,
    };
    assert!(!check_referral_distribution_due(&r, 2_591_999));
    assert!(check_referral_distribution_due(&r, 2_592_000));
    assert!(check_referral_distribution_due(&r, i64::MAX));
    assert!(!check_referral_distribution_due(&r, i64::MIN));
}

#[test]
fn test_bps_percentage() {
    assert_eq!(calculate_bps_percentage(1_000_000_000, 4_000), Ok(400_000_000));
    assert_eq!(calculate_bps_percentage(1_000_000_000, 2_000), Ok(200_000_000));
    assert_eq!(calculate_bps_percentage(3, 5_000), Ok(1));
    assert_eq!(calculate_bps_percentage(u64::MAX, 4_000), Ok(7_378_697_629_483_820_646));
    assert_eq!(
        calculate_bps_percentage(u64::MAX, 20_000),
        Err(StakingError::MathOverflow)
    );
}
