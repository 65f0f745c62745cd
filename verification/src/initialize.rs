//! Setup: the four records of the protocol get their first values.

use vstd::prelude::*;
use crate::constants::{
    BONUS_INITIAL_COUNTDOWN, MAX_LAST_TEN_INVESTORS, REFERRAL_DISTRIBUTION_PERIOD,
};
use crate::errors::StakingError;
use crate::events::ProtocolInitialized;
use crate::identity::Identity;
use crate::state::{BonusPool, GlobalConfig, LastTenInvestor, ReferralPool, StakingPool};

verus! {

/// The bumps of the addresses of the four records.
#[derive(Debug, Clone, Copy, PartialEq, Eq)]
pub struct InitializeBumps {
    pub global_config: u8,
    pub staking_pool: u8,
    pub bonus_pool: u8,
    pub referral_pool: u8,
}

/// The records that setup fills, and who sets the protocol up.
#[derive(Debug, Clone, Copy, PartialEq, Eq)]
pub struct Initialize {
    /// Who sets the protocol up, and is its authority from then on.
    pub authority: Identity,
    /// The identity of the record of the global parameters.
    pub global_config_key: Identity,
    /// The global parameters.
    pub global_config: GlobalConfig,
    /// The identity of the pool record.
    pub staking_pool_key: Identity,
    /// The pool.
    pub staking_pool: StakingPool,
    /// The bonus pool.
    pub bonus_pool: BonusPool,
    /// The referral pool.
    pub referral_pool: ReferralPool,
    /// Where the platform's share of each fee is to go.
    pub treasury: Identity,
    /// Where the team's share of each fee is to go.
    pub material_dart_wallet: Identity,
    /// The bumps of the four records.
    pub bumps: InitializeBumps,
}

impl Initialize {
    /// Why setup at `current_timestamp` is refused, or `None` where it goes
    /// through: the first expiry of the bonus countdown and the first due
    /// date of the referral pool have to fit in an `i64`.
    pub open spec fn initialize_failure(self, current_timestamp: i64) -> Option<StakingError> {
        if current_timestamp + BONUS_INITIAL_COUNTDOWN > i64::MAX || current_timestamp
            + REFERRAL_DISTRIBUTION_PERIOD > i64::MAX {
            Some(StakingError::MathOverflow)
        } else {
            None
        }
    }

    /// The records after setup: the protocol is not paused, both pools and
    /// the bonus pool's buffer are empty, the reward per share is zero, the
    /// bonus countdown runs for its initial length and the referral pool is
    /// due one period on, both from `current_timestamp`.
    pub open spec fn initialized(self, current_timestamp: i64) -> Initialize {
        Initialize {
            global_config: GlobalConfig {
                authority: self.authority,
                treasury: self.treasury,
                material_dart_wallet: self.material_dart_wallet,
                paused: false,
                bump: self.bumps.global_config,
                ..self.global_config
            },
            staking_pool: StakingPool {
                config: self.global_config_key,
                total_staked: 0,
                reward_per_share: 0,
                last_update_timestamp: current_timestamp,
                bump: self.bumps.staking_pool,
            },
            bonus_pool: BonusPool {
                staking_pool: self.staking_pool_key,
                balance: 0,
                expiry_timestamp: (current_timestamp + BONUS_INITIAL_COUNTDOWN) as i64,
                last_investment_timestamp: current_timestamp,
                last_ten_investors: vstd::array::spec_array_fill_for_copy_type::<
                    LastTenInvestor,
                    MAX_LAST_TEN_INVESTORS,
                >(LastTenInvestor::empty()),
                current_position: 0,
                investor_count: 0,
                bump: self.bumps.bonus_pool,
            },
            referral_pool: ReferralPool {
                staking_pool: self.staking_pool_key,
                balance: 0,
                next_distribution_timestamp: (current_timestamp
                    + REFERRAL_DISTRIBUTION_PERIOD) as i64,
                last_distribution_timestamp: current_timestamp,
                total_distributed: 0,
                bump: self.bumps.referral_pool,
            },
            ..self
        }
    }

    /// What setup reports.
    pub open spec fn receipt(self, current_timestamp: i64) -> ProtocolInitialized {
        ProtocolInitialized {
            authority: self.authority,
            treasury: self.treasury,
            material_dart_wallet: self.material_dart_wallet,
            timestamp: current_timestamp,
        }
    }
}

/// Sets the protocol up at `current_timestamp`.
///
/// Fails with `MathOverflow` where a timer does not fit in an `i64`, and
/// then changes nothing.
pub fn initialize_handler(
    ctx: &mut Initialize,
    current_timestamp: i64,
) -> (r: Result<ProtocolInitialized, StakingError>)
    ensures
        match r {
            Ok(receipt) => {
                &&& old(ctx).initialize_failure(current_timestamp) is None
                &&& *final(ctx) == old(ctx).initialized(current_timestamp)
                &&& receipt == old(ctx).receipt(current_timestamp)
                &&& final(ctx).bonus_pool.wf()
            },
            Err(e) => {
                &&& old(ctx).initialize_failure(current_timestamp) == Some(e)
                &&& *final(ctx) == *old(ctx)
            },
        },
{
    let authority = ctx.authority;
    let treasury = ctx.treasury;
    let material_dart_wallet = ctx.material_dart_wallet;

    let expiry_timestamp = match current_timestamp.checked_add(BONUS_INITIAL_COUNTDOWN) {
        Some(expiry) => expiry,
        None => {
            return Err(StakingError::MathOverflow);
        },
    };
    let next_distribution_timestamp = match current_timestamp.checked_add(
        REFERRAL_DISTRIBUTION_PERIOD,
    ) {
        Some(next) => next,
        None => {
            return Err(StakingError::MathOverflow);
        },
    };

    ctx.global_config.authority = authority;
    ctx.global_config.treasury = treasury;
    ctx.global_config.material_dart_wallet = material_dart_wallet;
    ctx.global_config.paused = false;
    ctx.global_config.bump = ctx.bumps.global_config;

    ctx.staking_pool.config = ctx.global_config_key;
    ctx.staking_pool.total_staked = 0;
    ctx.staking_pool.reward_per_share = 0;
    ctx.staking_pool.last_update_timestamp = current_timestamp;
    ctx.staking_pool.bump = ctx.bumps.staking_pool;

    ctx.bonus_pool.staking_pool = ctx.staking_pool_key;
    ctx.bonus_pool.balance = 0;
    ctx.bonus_pool.expiry_timestamp = expiry_timestamp;
    ctx.bonus_pool.last_investment_timestamp = current_timestamp;
    ctx.bonus_pool.last_ten_investors = [LastTenInvestor::default();MAX_LAST_TEN_INVESTORS];
    ctx.bonus_pool.current_position = 0;
    ctx.bonus_pool.investor_count = 0;
    ctx.bonus_pool.bump = ctx.bumps.bonus_pool;

    ctx.referral_pool.staking_pool = ctx.staking_pool_key;
    ctx.referral_pool.balance = 0;
    ctx.referral_pool.next_distribution_timestamp = next_distribution_timestamp;
    ctx.referral_pool.last_distribution_timestamp = current_timestamp;
    ctx.referral_pool.total_distributed = 0;
    ctx.referral_pool.bump = ctx.bumps.referral_pool;

    Ok(
        ProtocolInitialized {
            authority,
            treasury,
            material_dart_wallet,
            timestamp: current_timestamp,
        },
    )
}

} // verus!
