use staking_express::errors::StakingError;
use staking_express::events::Unstaked;
use staking_express::identity::Identity;
use staking_express::state::{
    BonusPool, GlobalConfig, LastTenInvestor, ReferralPool, StakingPool, UserStakeState,
};
use staking_express::unstake::{unstake_handler, Unstake, UnstakeReceipt};

fn id(n: u8) -> Identity {
    Identity::new([n; 32])
}

fn context() -> Unstake {
    Unstake {
        user: id(9),
        global_config: GlobalConfig {
            authority: id(1),
            treasury: id(5),
            material_dart_wallet: id(6),
            paused: false,
            is_initialized: false,
            bump: 255,
        },
        staking_pool: StakingPool {
            config: id(3),
            total_staked: 100_000_000_000,
            reward_per_share: 70_000_000_000,
            last_update_timestamp: 5,
            bump: 254,
        },
        user_stake: UserStakeState {
            user: id(9),
            pool: id(2),
            staked_amount: 10_000_000_000,
            reward_debt: 0,
            stake_timestamp: 1,
            last_claim_timestamp: 2,
            referrer: None,
            bump: 251,
        },
        bonus_pool: BonusPool {
            staking_pool: id(2),
            balance: 77,
            expiry_timestamp: 50_000,
            last_investment_timestamp: 10,
            last_ten_investors: [LastTenInvestor::default(); 10],
            current_position: 0,
            investor_count: 0,
            bump: 253,
        },
        referral_pool: ReferralPool {
            staking_pool: id(2),
            balance: 5,
            next_distribution_timestamp: 2_592_000,
            last_distribution_timestamp: 0,
            total_distributed: 0,
            bump: 252,
        },
        referrer: None,
    }
}

#[test]
fn test_unstake_one_sol_with_pending_rewards() {
    let mut ctx = context();
    let receipt = unstake_handler(&mut ctx, 1_000_000_000, 3_000).unwrap();

    assert_eq!(
        receipt,
        UnstakeReceipt {
            unstaked: Unstaked {
                user: id(9),
                gross_amount: 1_000_000_000,
                net_amount: 900_000_000,
                rewards_claimed: 700_000_000,
                fee_to_stakers: 70_000_000,
                fee_to_platform: 10_000_000,
                fee_to_bonus: 10_000_000,
                fee_to_referral: 5_000_000,
                fee_to_material_dart: 5_000_000,
                total_staked_after: 99_000_000_000,
                timestamp: 3_000,
            },
            total_fee: 100_000_000,
            referral_paid_to: None,
        }
    );

    let mut expected = context();
    expected.staking_pool.total_staked = 99_000_000_000;
    expected.staking_pool.reward_per_share = 70_700_000_000;
    expected.staking_pool.last_update_timestamp = 3_000;
    expected.user_stake.staked_amount = 9_000_000_000;
    expected.user_stake.reward_debt = 636_300_000;
    expected.bonus_pool.balance = 10_000_077;
    expected.referral_pool.balance = 5_000_005;
    assert_eq!(ctx, expected);
}

#[test]
fn test_unstake_conserves_the_gross_amount() {
    let amounts: [u64; 4] = [10_000_000, 10_000_200, 50_000_000, 10_000_000_000];
    for amount in amounts {
        let mut ctx = context();
        let unstaked = unstake_handler(&mut ctx, amount, 3_000).unwrap().unstaked;
        assert_eq!(
            unstaked.net_amount
                + unstaked.fee_to_stakers
                + unstaked.fee_to_platform
                + unstaked.fee_to_bonus
                + unstaked.fee_to_referral
                + unstaked.fee_to_material_dart,
            amount
        );
        assert_eq!(ctx.user_stake.staked_amount, 10_000_000_000 - amount);
        assert_eq!(ctx.staking_pool.total_staked, 100_000_000_000 - amount);
        assert_eq!(
            ctx.user_stake.reward_debt,
            ctx.user_stake.staked_amount as u128 * ctx.staking_pool.reward_per_share
                / 1_000_000_000_000
        );
    }
}

#[test]
fn test_unstake_everything_from_a_pool_of_one() {
    // the pool holds no more than is taken out: the stakers' fee is not credited
    let mut ctx = context();
    ctx.staking_pool.total_staked = 10_000_000_000;
    let receipt = unstake_handler(&mut ctx, 10_000_000_000, 3_000).unwrap();
    assert_eq!(receipt.unstaked.fee_to_stakers, 700_000_000);
    assert_eq!(receipt.unstaked.rewards_claimed, 700_000_000);
    assert_eq!(receipt.unstaked.total_staked_after, 0);
    assert_eq!(ctx.staking_pool.reward_per_share, 70_000_000_000);
    assert_eq!(ctx.staking_pool.total_staked, 0);
    assert_eq!(ctx.user_stake.staked_amount, 0);
    assert_eq!(ctx.user_stake.reward_debt, 0);
    // the record stays, with its binding
    assert_eq!(ctx.user_stake.user, id(9));
}

#[test]
fn test_unstake_pays_the_recorded_referrer() {
    let mut ctx = context();
    ctx.user_stake.referrer = Some(id(4));
    ctx.referrer = Some(id(4));
    let receipt = unstake_handler(&mut ctx, 1_000_000_000, 3_000).unwrap();
    assert_eq!(receipt.referral_paid_to, Some(id(4)));
    assert_eq!(receipt.unstaked.fee_to_referral, 5_000_000);
    assert_eq!(ctx.referral_pool.balance, 5);
}

#[test]
fn test_unstake_ignores_an_offered_account_where_none_is_recorded() {
    let mut ctx = context();
    ctx.referrer = Some(id(4));
    let receipt = unstake_handler(&mut ctx, 1_000_000_000, 3_000).unwrap();
    assert_eq!(receipt.referral_paid_to, None);
    assert_eq!(ctx.referral_pool.balance, 5_000_005);
}

#[test]
fn test_unstake_refused_without_the_recorded_referrer() {
    let mut ctx = context();
    ctx.user_stake.referrer = Some(id(4));
    let before = ctx;
    assert_eq!(
        unstake_handler(&mut ctx, 1_000_000_000, 3_000),
        Err(StakingError::InvalidAmount)
    );
    assert_eq!(ctx, before);
}

#[test]
fn test_unstake_refused_with_another_referrer() {
    let mut ctx = context();
    ctx.user_stake.referrer = Some(id(4));
    ctx.referrer = Some(id(8));
    let before = ctx;
    assert_eq!(
        unstake_handler(&mut ctx, 1_000_000_000, 3_000),
        Err(StakingError::InvalidAccountOwner)
    );
    assert_eq!(ctx, before);
}

#[test]
fn test_unstake_refused_while_paused() {
    let mut ctx = context();
    ctx.global_config.paused = true;
    let before = ctx;
    assert_eq!(
        unstake_handler(&mut ctx, 1_000_000_000, 3_000),
        Err(StakingError::PoolPaused)
    );
    assert_eq!(unstake_handler(&mut ctx, 1, 3_000), Err(StakingError::PoolPaused));
    assert_eq!(ctx, before);
}

#[test]
fn test_unstake_below_minimum() {
    let mut ctx = context();
    let before = ctx;
    assert_eq!(
        unstake_handler(&mut ctx, 9_999_999, 3_000),
        Err(StakingError::UnstakeTooSmall)
    );
    assert_eq!(unstake_handler(&mut ctx, 0, 3_000), Err(StakingError::UnstakeTooSmall));
    assert_eq!(ctx, before);
}

#[test]
fn test_unstake_more_than_staked() {
    let mut ctx = context();
    let before = ctx;
    assert_eq!(
        unstake_handler(&mut ctx, 10_000_000_200, 3_000),
        Err(StakingError::InsufficientStake)
    );
    assert_eq!(ctx, before);
    // the minimum is looked at first
    ctx.user_stake.staked_amount = 0;
    assert_eq!(unstake_handler(&mut ctx, 1, 3_000), Err(StakingError::UnstakeTooSmall));
    assert_eq!(
        unstake_handler(&mut ctx, 10_000_000, 3_000),
        Err(StakingError::InsufficientStake)
    );
}

#[test]
fn test_unstake_refused_where_fee_components_diverge() {
    let mut ctx = context();
    let before = ctx;
    assert_eq!(
        unstake_handler(&mut ctx, 10_000_100, 3_000),
        Err(StakingError::InvalidFeeBreakdown)
    );
    assert_eq!(ctx, before);
}

#[test]
fn test_unstake_from_a_pool_that_holds_less() {
    let mut ctx = context();
    ctx.staking_pool.total_staked = 500_000_000;
    let before = ctx;
    assert_eq!(
        unstake_handler(&mut ctx, 1_000_000_000, 3_000),
        Err(StakingError::MathUnderflow)
    );
    assert_eq!(ctx, before);
}

#[test]
fn test_unstake_overflow_changes_nothing() {
    // the pending rewards do not fit
    let mut ctx = context();
    ctx.staking_pool.reward_per_share = u128::MAX;
    let before = ctx;
    assert_eq!(
        unstake_handler(&mut ctx, 1_000_000_000, 3_000),
        Err(StakingError::MathOverflow)
    );
    assert_eq!(ctx, before);
    // that is reported before a fee that does not add up
    assert_eq!(
        unstake_handler(&mut ctx, 10_000_100, 3_000),
        Err(StakingError::MathOverflow)
    );

    // the bonus pool cannot take its fee
    let mut ctx = context();
    ctx.bonus_pool.balance = u64::MAX;
    let before = ctx;
    assert_eq!(
        unstake_handler(&mut ctx, 1_000_000_000, 3_000),
        Err(StakingError::MathOverflow)
    );
    assert_eq!(ctx, before);

    // the referral pool cannot take its fee
    let mut ctx = context();
    ctx.referral_pool.balance = u64::MAX;
    let before = ctx;
    assert_eq!(
        unstake_handler(&mut ctx, 1_000_000_000, 3_000),
        Err(StakingError::MathOverflow)
    );
    assert_eq!(ctx, before);
}

#[test]
fn test_unstake_leaves_bonus_timers_alone() {
    let mut ctx = context();
    unstake_handler(&mut ctx, 5_000_000_000, 3_000).unwrap();
    assert_eq!(ctx.bonus_pool.expiry_timestamp, 50_000);
    assert_eq!(ctx.bonus_pool.last_investment_timestamp, 10);
    assert_eq!(ctx.bonus_pool.investor_count, 0);
    assert_eq!(ctx.user_stake.last_claim_timestamp, 2);
}
