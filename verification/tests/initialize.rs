use staking_express::errors::StakingError;
use staking_express::events::ProtocolInitialized;
use staking_express::identity::Identity;
use staking_express::initialize::{initialize_handler, Initialize, InitializeBumps};
use staking_express::state::{
    BonusPool, GlobalConfig, LastTenInvestor, ReferralPool, StakingPool,
};

fn id(n: u8) -> Identity {
    Identity::new([n; 32])
}

fn context() -> Initialize {
    Initialize {
        authority: id(1),
        global_config_key: id(3),
        global_config: GlobalConfig {
            authority: id(90),
            treasury: id(91),
            material_dart_wallet: id(92),
            paused: true,
            is_initialized: false,
            bump: 0,
        },
        staking_pool_key: id(2),
        staking_pool: StakingPool {
            config: id(93),
            total_staked: 4,
            reward_per_share: 5,
            last_update_timestamp: 6,
            bump: 0,
        },
        bonus_pool: BonusPool {
            staking_pool: id(94),
            balance: 7,
            expiry_timestamp: 8,
            last_investment_timestamp: 9,
            last_ten_investors: [LastTenInvestor { investor: id(95), amount: 10 }; 10],
            current_position: 3,
            investor_count: 4,
            bump: 0,
        },
        referral_pool: ReferralPool {
            staking_pool: id(96),
            balance: 11,
            next_distribution_timestamp: 12,
            last_distribution_timestamp: 13,
            total_distributed: 14,
            bump: 0,
        },
        treasury: id(5),
        material_dart_wallet: id(6),
        bumps: InitializeBumps { global_config: 255, staking_pool: 254, bonus_pool: 253, referral_pool: 252 },
    }
}

#[test]
fn test_initialize_sets_every_record() {
    let mut ctx = context();
    assert_eq!(
        initialize_handler(&mut ctx, 1_000),
        Ok(ProtocolInitialized {
            authority: id(1),
            treasury: id(5),
            material_dart_wallet: id(6),
            timestamp: 1_000,
        })
    );
    assert_eq!(
        ctx.global_config,
        GlobalConfig {
            authority: id(1),
            treasury: id(5),
            material_dart_wallet: id(6),
            paused: false,
            is_initialized: false,
            bump: 255,
        }
    );
    assert_eq!(
        ctx.staking_pool,
        StakingPool {
            config: id(3),
            total_staked: 0,
            reward_per_share: 0,
            last_update_timestamp: 1_000,
            bump: 254,
        }
    );
    assert_eq!(
        ctx.bonus_pool,
        BonusPool {
            staking_pool: id(2),
            balance: 0,
            expiry_timestamp: 44_200,
            last_investment_timestamp: 1_000,
            last_ten_investors: [LastTenInvestor { investor: Identity::default(), amount: 0 }; 10],
            current_position: 0,
            investor_count: 0,
            bump: 253,
        }
    );
    assert_eq!(
        ctx.referral_pool,
        ReferralPool {
            staking_pool: id(2),
            balance: 0,
            next_distribution_timestamp: 2_593_000,
            last_distribution_timestamp: 1_000,
            total_distributed: 0,
            bump: 252,
        }
    );
    assert!(ctx.bonus_pool.is_well_formed());
    // what setup was given stays
    assert_eq!(ctx.authority, id(1));
    assert_eq!(ctx.bumps, context().bumps);
}

#[test]
fn test_initialize_where_a_timer_does_not_fit() {
    let mut ctx = context();
    let before = ctx;
    assert_eq!(initialize_handler(&mut ctx, i64::MAX), Err(StakingError::MathOverflow));
    assert_eq!(ctx, before);
    // the bonus countdown fits, the referral period does not
    assert_eq!(
        initialize_handler(&mut ctx, i64::MAX - 43_200),
        Err(StakingError::MathOverflow)
    );
    assert_eq!(
        initialize_handler(&mut ctx, i64::MAX - 2_591_999),
        Err(StakingError::MathOverflow)
    );
    assert_eq!(ctx, before);
    assert!(initialize_handler(&mut ctx, i64::MAX - 2_592_000).is_ok());
    assert_eq!(ctx.referral_pool.next_distribution_timestamp, i64::MAX);
}

#[test]
fn test_default_buffer_entry() {
    let entry = LastTenInvestor::default();
    assert!(entry.investor.is_unset());
    assert_eq!(entry.amount, 0);
}
