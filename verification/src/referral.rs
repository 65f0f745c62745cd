//! Distribution of the referral pool: half to all stakers, half carried
//! forward, once per period or when forced.

use vstd::prelude::*;
use crate::constants::REFERRAL_DISTRIBUTION_PERIOD;
use crate::errors::StakingError;
use crate::events::ReferralPoolDistributed;
use crate::helpers::{
    calculate_referral_distribution, check_referral_distribution_due, referral_distribution_due,
    referral_split, reward_per_share_after, update_reward_per_share,
};
use crate::math::safe_add;
use crate::state::{ReferralPool, StakingPool};

verus! {

/// The records a distribution of the referral pool works on.
#[derive(Debug, Clone, Copy, PartialEq, Eq)]
pub struct DistributeReferralPool {
    /// The pool.
    pub staking_pool: StakingPool,
    /// The referral pool.
    pub referral_pool: ReferralPool,
}

/// What a distribution of the referral pool did: the amount to move, and the
/// event to report.
#[derive(Debug, Clone, Copy, PartialEq, Eq)]
pub struct ReferralDistribution {
    /// The distribution, with its two parts and the next due date.
    pub distributed: ReferralPoolDistributed,
    /// What goes from the referral pool to the pool's vault: the stakers'
    /// half, or nothing where there is no half or no staker.
    pub moved_to_stakers: u64,
}

impl DistributeReferralPool {
    /// Whether the stakers' half is credited: there is something to credit,
    /// and somebody to credit it to.
    pub open spec fn credits_stakers(self) -> bool {
        referral_split(self.referral_pool.balance).0 > 0 && self.staking_pool.total_staked > 0
    }

    /// The pool's reward per share after the distribution.
    pub open spec fn reward_per_share_next(self) -> int {
        if self.credits_stakers() {
            reward_per_share_after(self.staking_pool, referral_split(self.referral_pool.balance).0)
        } else {
            self.staking_pool.reward_per_share as int
        }
    }

    /// Why a distribution at `current_timestamp` is refused, or `None` where
    /// it goes through. The first reason that applies is the one reported.
    pub open spec fn distribution_failure(self, force: bool, current_timestamp: i64) -> Option<
        StakingError,
    > {
        if !(referral_distribution_due(self.referral_pool, current_timestamp) || force) {
            Some(StakingError::ReferralPeriodNotEnded)
        } else if self.referral_pool.balance == 0 {
            Some(StakingError::BonusPoolEmpty)
        } else if (self.credits_stakers() && (self.reward_per_share_next() > u128::MAX
            || self.referral_pool.total_distributed + referral_split(self.referral_pool.balance).0
            > u64::MAX)) || current_timestamp + REFERRAL_DISTRIBUTION_PERIOD > i64::MAX {
            Some(StakingError::MathOverflow)
        } else {
            None
        }
    }

    /// The records after a distribution that goes through. Where the
    /// stakers' half is credited, the referral pool keeps the other half and
    /// counts what it gave; where it is not, the balance stays whole. Either
    /// way the next distribution is due one period after `current_timestamp`.
    pub open spec fn distributed(self, current_timestamp: i64) -> DistributeReferralPool {
        let (to_stakers, carry_forward) = referral_split(self.referral_pool.balance);
        DistributeReferralPool {
            staking_pool: StakingPool {
                reward_per_share: self.reward_per_share_next() as u128,
                ..self.staking_pool
            },
            referral_pool: ReferralPool {
                balance: if self.credits_stakers() {
                    carry_forward
                } else {
                    self.referral_pool.balance
                },
                total_distributed: if self.credits_stakers() {
                    (self.referral_pool.total_distributed + to_stakers) as u64
                } else {
                    self.referral_pool.total_distributed
                },
                last_distribution_timestamp: current_timestamp,
                next_distribution_timestamp: (current_timestamp
                    + REFERRAL_DISTRIBUTION_PERIOD) as i64,
                ..self.referral_pool
            },
        }
    }

    /// What a distribution that goes through reports.
    pub open spec fn receipt(self, current_timestamp: i64) -> ReferralDistribution {
        let (to_stakers, carry_forward) = referral_split(self.referral_pool.balance);
        ReferralDistribution {
            distributed: ReferralPoolDistributed {
                total_distributed: self.referral_pool.balance,
                to_stakers,
                carried_forward: carry_forward,
                next_distribution: (current_timestamp + REFERRAL_DISTRIBUTION_PERIOD) as i64,
                timestamp: current_timestamp,
            },
            moved_to_stakers: if self.credits_stakers() {
                to_stakers
            } else {
                0
            },
        }
    }
}

/// Distributes the referral pool at `current_timestamp`.
///
/// The balance is split in two: half, rounded down, is credited to all
/// stakers through the reward per share, and the rest stays in the referral
/// pool. The two parts sum to the balance exactly. The next distribution is
/// due one period later, whether this one was due or forced.
///
/// The distribution is refused with `ReferralPeriodNotEnded` where it is
/// neither due nor forced, with `BonusPoolEmpty` where the pool holds
/// nothing, and with `MathOverflow` where a figure overflows. A refused
/// distribution changes nothing.
pub fn distribute_referral_pool_handler(
    ctx: &mut DistributeReferralPool,
    force: bool,
    current_timestamp: i64,
) -> (r: Result<ReferralDistribution, StakingError>)
    ensures
        match r {
            Ok(receipt) => {
                &&& old(ctx).distribution_failure(force, current_timestamp) is None
                &&& *final(ctx) == old(ctx).distributed(current_timestamp)
                &&& receipt == old(ctx).receipt(current_timestamp)
                &&& receipt.distributed.to_stakers + receipt.distributed.carried_forward == old(
                    ctx,
                ).referral_pool.balance
                &&& receipt.distributed.to_stakers == old(ctx).referral_pool.balance / 2
                &&& final(ctx).referral_pool.next_distribution_timestamp == current_timestamp
                    + REFERRAL_DISTRIBUTION_PERIOD
            },
            Err(e) => {
                &&& old(ctx).distribution_failure(force, current_timestamp) == Some(e)
                &&& *final(ctx) == *old(ctx)
            },
        },
        final(ctx).staking_pool.reward_per_share >= old(ctx).staking_pool.reward_per_share,
{
    let mut staking_pool = ctx.staking_pool;
    let mut referral_pool = ctx.referral_pool;

    let distribution_due = check_referral_distribution_due(&referral_pool, current_timestamp);
    if !(distribution_due || force) {
        return Err(StakingError::ReferralPeriodNotEnded);
    }
    if referral_pool.balance == 0 {
        return Err(StakingError::BonusPoolEmpty);
    }
    let total_to_distribute = referral_pool.balance;
    let (to_stakers, carry_forward) = calculate_referral_distribution(total_to_distribute)?;

    let mut moved_to_stakers: u64 = 0;
    if to_stakers > 0 && staking_pool.total_staked > 0 {
        update_reward_per_share(&mut staking_pool, to_stakers)?;

        referral_pool.balance = carry_forward;
        referral_pool.total_distributed = safe_add(referral_pool.total_distributed, to_stakers)?;
        moved_to_stakers = to_stakers;
    }
    referral_pool.last_distribution_timestamp = current_timestamp;
    referral_pool.next_distribution_timestamp = match current_timestamp.checked_add(
        REFERRAL_DISTRIBUTION_PERIOD,
    ) {
        Some(next) => next,
        None => {
            return Err(StakingError::MathOverflow);
        },
    };
    let total_distributed = safe_add(to_stakers, carry_forward)?;

    ctx.staking_pool = staking_pool;
    ctx.referral_pool = referral_pool;

    Ok(
        ReferralDistribution {
            distributed: ReferralPoolDistributed {
                total_distributed,
                to_stakers,
                carried_forward: carry_forward,
                next_distribution: referral_pool.next_distribution_timestamp,
                timestamp: current_timestamp,
            },
            moved_to_stakers,
        },
    )
}

/// A distribution that went through is not repeated unless it is forced:
/// from its moment on and until one period has passed, every attempt that is
/// not forced is refused with `ReferralPeriodNotEnded` and changes nothing.
pub proof fn lemma_referral_distributed_once(
    ctx: DistributeReferralPool,
    force: bool,
    first: i64,
    second: i64,
)
    requires
        ctx.distribution_failure(force, first) is None,
        first <= second,
        second - first < REFERRAL_DISTRIBUTION_PERIOD,
    ensures
        ctx.distributed(first).distribution_failure(false, second) == Some(
            StakingError::ReferralPeriodNotEnded,
        ),
{
}

} // verus!
