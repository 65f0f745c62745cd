//! Unstaking: a staker takes a gross amount out of their position, is paid
//! what they have pending, and gets the amount back less the fee.

use vstd::prelude::*;
use crate::constants::MIN_UNSTAKE;
use crate::errors::StakingError;
use crate::events::Unstaked;
use crate::fees::{calculate_unstake_fee, fee_breakdown_of, fee_split_agrees, verify_fee_breakdown};
use crate::helpers::{get_pending_rewards, reward_per_share_after, update_reward_per_share};
use crate::identity::Identity;
use crate::math::{accrued_rewards, calculate_reward_debt, pending_rewards, safe_add, safe_sub};
use crate::state::{BonusPool, GlobalConfig, ReferralPool, StakingPool, UserStakeState};

verus! {

/// The records an unstake works on, and who unstakes.
#[derive(Debug, Clone, Copy, PartialEq, Eq)]
pub struct Unstake {
    /// The staker.
    pub user: Identity,
    /// The global parameters.
    pub global_config: GlobalConfig,
    /// The pool.
    pub staking_pool: StakingPool,
    /// The staker's position.
    pub user_stake: UserStakeState,
    /// The bonus pool.
    pub bonus_pool: BonusPool,
    /// The referral pool.
    pub referral_pool: ReferralPool,
    /// The account offered to receive the referral fee, if any. It has to be
    /// the referrer that the position records.
    pub referrer: Option<Identity>,
}

/// What an unstake did: the amounts to move, and the event to report.
#[derive(Debug, Clone, Copy, PartialEq, Eq)]
pub struct UnstakeReceipt {
    /// The unstake, with its fee components, the rewards paid and the pool's
    /// total after it.
    pub unstaked: Unstaked,
    /// The total fee: the sum of the five components.
    pub total_fee: u64,
    /// Who receives the referral fee; `None` where it goes to the referral pool.
    pub referral_paid_to: Option<Identity>,
}

impl Unstake {
    /// What the position has pending before anything changes.
    pub open spec fn pending(self) -> int {
        pending_rewards(
            self.user_stake.staked_amount as int,
            self.staking_pool.reward_per_share as int,
            self.user_stake.reward_debt as int,
        )
    }

    /// The pool's reward per share after the unstake. The stakers' fee is
    /// credited only where the pool holds more than is taken out, and then
    /// over the pool's total before the unstake.
    pub open spec fn reward_per_share_next(self, gross_unstake_amount: u64) -> int {
        if self.staking_pool.total_staked > gross_unstake_amount {
            reward_per_share_after(
                self.staking_pool,
                fee_breakdown_of(gross_unstake_amount).stakers,
            )
        } else {
            self.staking_pool.reward_per_share as int
        }
    }

    /// Why an unstake of `gross_unstake_amount` is refused, or `None` where it
    /// goes through. The first reason that applies is the one reported.
    pub open spec fn unstake_failure(self, gross_unstake_amount: u64) -> Option<StakingError> {
        let fees = fee_breakdown_of(gross_unstake_amount);
        if self.global_config.paused {
            Some(StakingError::PoolPaused)
        } else if gross_unstake_amount < MIN_UNSTAKE {
            Some(StakingError::UnstakeTooSmall)
        } else if self.user_stake.staked_amount < gross_unstake_amount {
            Some(StakingError::InsufficientStake)
        } else if self.user_stake.staked_amount * self.staking_pool.reward_per_share > u128::MAX
            || self.pending() > u64::MAX {
            Some(StakingError::MathOverflow)
        } else if !fee_split_agrees(gross_unstake_amount as int) {
            Some(StakingError::InvalidFeeBreakdown)
        } else if self.bonus_pool.balance + fees.bonus_pool > u64::MAX {
            Some(StakingError::MathOverflow)
        } else if self.user_stake.referrer is Some && self.referrer is None {
            Some(StakingError::InvalidAmount)
        } else if self.user_stake.referrer is Some && self.referrer != self.user_stake.referrer {
            Some(StakingError::InvalidAccountOwner)
        } else if self.user_stake.referrer is None && self.referral_pool.balance + fees.referral
            > u64::MAX {
            Some(StakingError::MathOverflow)
        } else if self.reward_per_share_next(gross_unstake_amount) > u128::MAX {
            Some(StakingError::MathOverflow)
        } else if (self.user_stake.staked_amount - gross_unstake_amount)
            * self.reward_per_share_next(gross_unstake_amount) > u128::MAX {
            Some(StakingError::MathOverflow)
        } else if self.staking_pool.total_staked < gross_unstake_amount {
            Some(StakingError::MathUnderflow)
        } else {
            None
        }
    }

    /// The records after an unstake that goes through: the position and the
    /// pool's total are lower by the gross amount, the position's reward debt
    /// is in step with the pool after the unstake, and the bonus pool and the
    /// referral pool have their parts of the fee.
    pub open spec fn unstaked(self, gross_unstake_amount: u64, current_timestamp: i64) -> Unstake {
        let fees = fee_breakdown_of(gross_unstake_amount);
        let staked_amount = self.user_stake.staked_amount - gross_unstake_amount;
        let reward_per_share = self.reward_per_share_next(gross_unstake_amount);
        Unstake {
            staking_pool: StakingPool {
                total_staked: (self.staking_pool.total_staked - gross_unstake_amount) as u64,
                reward_per_share: reward_per_share as u128,
                last_update_timestamp: current_timestamp,
                ..self.staking_pool
            },
            user_stake: UserStakeState {
                staked_amount: staked_amount as u64,
                reward_debt: accrued_rewards(staked_amount, reward_per_share) as u128,
                ..self.user_stake
            },
            bonus_pool: BonusPool {
                balance: (self.bonus_pool.balance + fees.bonus_pool) as u64,
                ..self.bonus_pool
            },
            referral_pool: if self.user_stake.referrer is None {
                ReferralPool {
                    balance: (self.referral_pool.balance + fees.referral) as u64,
                    ..self.referral_pool
                }
            } else {
                self.referral_pool
            },
            ..self
        }
    }

    /// What an unstake that goes through reports.
    pub open spec fn receipt(
        self,
        gross_unstake_amount: u64,
        current_timestamp: i64,
    ) -> UnstakeReceipt {
        let fees = fee_breakdown_of(gross_unstake_amount);
        UnstakeReceipt {
            unstaked: Unstaked {
                user: self.user,
                gross_amount: gross_unstake_amount,
                net_amount: fees.net_amount,
                rewards_claimed: self.pending() as u64,
                fee_to_stakers: fees.stakers,
                fee_to_platform: fees.platform,
                fee_to_bonus: fees.bonus_pool,
                fee_to_referral: fees.referral,
                fee_to_material_dart: fees.material_dart,
                total_staked_after: (self.staking_pool.total_staked - gross_unstake_amount) as u64,
                timestamp: current_timestamp,
            },
            total_fee: fees.total_fee,
            referral_paid_to: self.user_stake.referrer,
        }
    }
}

/// Unstakes `gross_unstake_amount` for `ctx.user` at `current_timestamp`.
///
/// The staker is paid what the position has pending, free of fees, and the
/// gross amount less the fee. The fee is split as on a stake; its stakers'
/// part is credited to the reward per share where the pool holds more than
/// is taken out. The position's reward debt is brought in step with the pool
/// for the amount that stays. The receipt names every amount that has to be
/// moved.
///
/// The unstake is refused while the protocol is paused, below the minimum,
/// above what the position holds, where the fee components do not add up,
/// where the position records a referrer and another account or none is
/// offered, and where a figure overflows or the pool's total would fall
/// below zero. A refused unstake changes nothing.
pub fn unstake_handler(
    ctx: &mut Unstake,
    gross_unstake_amount: u64,
    current_timestamp: i64,
) -> (r: Result<UnstakeReceipt, StakingError>)
    ensures
        match r {
            Ok(receipt) => {
                &&& old(ctx).unstake_failure(gross_unstake_amount) is None
                &&& *final(ctx) == old(ctx).unstaked(gross_unstake_amount, current_timestamp)
                &&& receipt == old(ctx).receipt(gross_unstake_amount, current_timestamp)
                &&& receipt.unstaked.net_amount + receipt.unstaked.fee_to_stakers
                    + receipt.unstaked.fee_to_platform + receipt.unstaked.fee_to_bonus
                    + receipt.unstaked.fee_to_referral + receipt.unstaked.fee_to_material_dart
                    == gross_unstake_amount
                &&& final(ctx).user_stake.in_step_with(final(ctx).staking_pool)
            },
            Err(e) => {
                &&& old(ctx).unstake_failure(gross_unstake_amount) == Some(e)
                &&& *final(ctx) == *old(ctx)
            },
        },
        final(ctx).staking_pool.reward_per_share >= old(ctx).staking_pool.reward_per_share,
{
    if ctx.global_config.paused {
        return Err(StakingError::PoolPaused);
    }
    if gross_unstake_amount < MIN_UNSTAKE {
        return Err(StakingError::UnstakeTooSmall);
    }
    let user_key = ctx.user;
    let mut staking_pool = ctx.staking_pool;
    let mut user_stake = ctx.user_stake;
    let mut bonus_pool = ctx.bonus_pool;
    let mut referral_pool = ctx.referral_pool;

    if user_stake.staked_amount < gross_unstake_amount {
        return Err(StakingError::InsufficientStake);
    }
    let pending_rewards = get_pending_rewards(&user_stake, &staking_pool)?;

    let fees = calculate_unstake_fee(gross_unstake_amount)?;
    verify_fee_breakdown(&fees)?;

    bonus_pool.balance = safe_add(bonus_pool.balance, fees.bonus_pool)?;

    match user_stake.referrer {
        Some(referrer_key) => {
            match ctx.referrer {
                Some(referrer_account) => {
                    if referrer_account != referrer_key {
                        return Err(StakingError::InvalidAccountOwner);
                    }
                },
                None => {
                    return Err(StakingError::InvalidAmount);
                },
            }
        },
        None => {
            referral_pool.balance = safe_add(referral_pool.balance, fees.referral)?;
        },
    }

    if staking_pool.total_staked > gross_unstake_amount {
        update_reward_per_share(&mut staking_pool, fees.stakers)?;
    }
    user_stake.staked_amount = safe_sub(user_stake.staked_amount, gross_unstake_amount)?;
    user_stake.reward_debt = calculate_reward_debt(
        user_stake.staked_amount,
        staking_pool.reward_per_share,
    )?;

    staking_pool.total_staked = safe_sub(staking_pool.total_staked, gross_unstake_amount)?;
    staking_pool.last_update_timestamp = current_timestamp;

    ctx.staking_pool = staking_pool;
    ctx.user_stake = user_stake;
    ctx.bonus_pool = bonus_pool;
    ctx.referral_pool = referral_pool;

    Ok(
        UnstakeReceipt {
            unstaked: Unstaked {
                user: user_key,
                gross_amount: gross_unstake_amount,
                net_amount: fees.net_amount,
                rewards_claimed: pending_rewards,
                fee_to_stakers: fees.stakers,
                fee_to_platform: fees.platform,
                fee_to_bonus: fees.bonus_pool,
                fee_to_referral: fees.referral,
                fee_to_material_dart: fees.material_dart,
                total_staked_after: staking_pool.total_staked,
                timestamp: current_timestamp,
            },
            total_fee: fees.total_fee,
            referral_paid_to: user_stake.referrer,
        },
    )
}

/// An unstake takes the same amount from the position and from the pool's
/// total: the gross amount. Of it the staker gets the net amount back, and
/// the five fee components take the rest.
pub proof fn lemma_unstake_takes_gross_amount(
    ctx: Unstake,
    gross_unstake_amount: u64,
    current_timestamp: i64,
)
    requires
        ctx.unstake_failure(gross_unstake_amount) is None,
    ensures
        ctx.unstaked(gross_unstake_amount, current_timestamp).user_stake.staked_amount
            == ctx.user_stake.staked_amount - gross_unstake_amount,
        ctx.unstaked(gross_unstake_amount, current_timestamp).staking_pool.total_staked
            == ctx.staking_pool.total_staked - gross_unstake_amount,
        fee_breakdown_of(gross_unstake_amount).net_amount + fee_breakdown_of(
            gross_unstake_amount,
        ).components_sum() == gross_unstake_amount,
{
}

/// After an unstake nothing is pending on what stays in the position.
pub proof fn lemma_unstake_settles_position(
    ctx: Unstake,
    gross_unstake_amount: u64,
    current_timestamp: i64,
)
    requires
        ctx.unstake_failure(gross_unstake_amount) is None,
    ensures
        ctx.unstaked(gross_unstake_amount, current_timestamp).user_stake.in_step_with(
            ctx.unstaked(gross_unstake_amount, current_timestamp).staking_pool,
        ),
        pending_rewards(
            ctx.unstaked(gross_unstake_amount, current_timestamp).user_stake.staked_amount as int,
            ctx.unstaked(
                gross_unstake_amount,
                current_timestamp,
            ).staking_pool.reward_per_share as int,
            ctx.unstaked(gross_unstake_amount, current_timestamp).user_stake.reward_debt as int,
        ) == 0,
{
}

} // verus!
