//! Claiming: a staker is paid what their position has pending.

use vstd::prelude::*;
use crate::errors::StakingError;
use crate::events::RewardsClaimed;
use crate::helpers::get_pending_rewards;
use crate::identity::Identity;
use crate::math::{accrued_rewards, calculate_reward_debt, pending_rewards};
use crate::state::{GlobalConfig, StakingPool, UserStakeState};

verus! {

/// The records a claim works on, and who claims.
#[derive(Debug, Clone, Copy, PartialEq, Eq)]
pub struct ClaimRewards {
    /// The staker.
    pub user: Identity,
    /// The global parameters.
    pub global_config: GlobalConfig,
    /// The pool.
    pub staking_pool: StakingPool,
    /// The staker's position.
    pub user_stake: UserStakeState,
}

impl ClaimRewards {
    /// What the position has pending.
    pub open spec fn pending(self) -> int {
        pending_rewards(
            self.user_stake.staked_amount as int,
            self.staking_pool.reward_per_share as int,
            self.user_stake.reward_debt as int,
        )
    }

    /// Why a claim is refused, or `None` where it goes through. The first
    /// reason that applies is the one reported.
    pub open spec fn claim_failure(self) -> Option<StakingError> {
        if self.global_config.paused {
            Some(StakingError::PoolPaused)
        } else if self.user_stake.staked_amount * self.staking_pool.reward_per_share > u128::MAX
            || self.pending() > u64::MAX {
            Some(StakingError::MathOverflow)
        } else if self.pending() == 0 {
            Some(StakingError::NoRewardsAvailable)
        } else {
            None
        }
    }

    /// The records after a claim that goes through: the position's reward
    /// debt is in step with the pool, and the claim is its last one.
    pub open spec fn claimed(self, current_timestamp: i64) -> ClaimRewards {
        ClaimRewards {
            user_stake: UserStakeState {
                reward_debt: accrued_rewards(
                    self.user_stake.staked_amount as int,
                    self.staking_pool.reward_per_share as int,
                ) as u128,
                last_claim_timestamp: current_timestamp,
                ..self.user_stake
            },
            ..self
        }
    }

    /// What a claim that goes through reports.
    pub open spec fn receipt(self, current_timestamp: i64) -> RewardsClaimed {
        RewardsClaimed {
            user: self.user,
            amount: self.pending() as u64,
            reward_debt_after: accrued_rewards(
                self.user_stake.staked_amount as int,
                self.staking_pool.reward_per_share as int,
            ) as u128,
            timestamp: current_timestamp,
        }
    }
}

/// Claims for `ctx.user` at `current_timestamp` what the position has pending.
///
/// The amount to pay is in the receipt. The position's reward debt is
/// brought in step with the pool, so that nothing is pending afterwards.
///
/// The claim is refused while the protocol is paused, where nothing is
/// pending, and where a figure overflows. A refused claim changes nothing.
pub fn claim_rewards_handler(
    ctx: &mut ClaimRewards,
    current_timestamp: i64,
) -> (r: Result<RewardsClaimed, StakingError>)
    ensures
        match r {
            Ok(receipt) => {
                &&& old(ctx).claim_failure() is None
                &&& *final(ctx) == old(ctx).claimed(current_timestamp)
                &&& receipt == old(ctx).receipt(current_timestamp)
                &&& receipt.amount > 0
                &&& final(ctx).user_stake.in_step_with(final(ctx).staking_pool)
                &&& final(ctx).pending() == 0
            },
            Err(e) => {
                &&& old(ctx).claim_failure() == Some(e)
                &&& *final(ctx) == *old(ctx)
            },
        },
{
    if ctx.global_config.paused {
        return Err(StakingError::PoolPaused);
    }
    let user_key = ctx.user;
    let mut user_stake = ctx.user_stake;

    let pending_rewards = get_pending_rewards(&user_stake, &ctx.staking_pool)?;
    if pending_rewards == 0 {
        return Err(StakingError::NoRewardsAvailable);
    }
    user_stake.reward_debt = calculate_reward_debt(
        user_stake.staked_amount,
        ctx.staking_pool.reward_per_share,
    )?;
    user_stake.last_claim_timestamp = current_timestamp;

    ctx.user_stake = user_stake;

    Ok(
        RewardsClaimed {
            user: user_key,
            amount: pending_rewards,
            reward_debt_after: user_stake.reward_debt,
            timestamp: current_timestamp,
        },
    )
}

/// A claim settles the position: straight after a claim that went through,
/// nothing is pending, and a second claim is refused with
/// `NoRewardsAvailable`, whenever it is made. So nothing is paid twice.
pub proof fn lemma_second_claim_pays_nothing(ctx: ClaimRewards, first: i64, second: i64)
    requires
        ctx.claim_failure() is None,
    ensures
        ctx.claimed(first).pending() == 0,
        ctx.claimed(first).claim_failure() == Some(StakingError::NoRewardsAvailable),
        ctx.claimed(first).claimed(second).user_stake.reward_debt == ctx.claimed(
            first,
        ).user_stake.reward_debt,
{
}

} // verus!
