//! Staking: a staker puts in a gross amount, the fee is split, and the net
//! amount is added to their position.

use vstd::prelude::*;
use crate::constants::{BONUS_EXTENSION_SECONDS, BONUS_EXTENSION_THRESHOLD, MIN_STAKE};
use crate::errors::StakingError;
use crate::events::{BonusCountdownExtended, InvestorAddedToLastTen, Staked};
use crate::fees::{calculate_stake_fee, fee_breakdown_of, fee_split_agrees, verify_fee_breakdown};
use crate::helpers::{
    add_to_last_ten, extend_bonus_countdown, get_pending_rewards, reward_per_share_after,
    update_reward_per_share, with_last_ten_entry,
};
use crate::identity::Identity;
use crate::math::{accrued_rewards, calculate_reward_debt, pending_rewards, safe_add, safe_sub};
use crate::state::{BonusPool, GlobalConfig, ReferralPool, StakingPool, UserStakeState};

verus! {

/// The records a stake works on, and who stakes.
#[derive(Debug, Clone, Copy, PartialEq, Eq)]
pub struct Stake {
    /// The staker.
    pub user: Identity,
    /// The global parameters.
    pub global_config: GlobalConfig,
    /// The identity of the pool record.
    pub staking_pool_key: Identity,
    /// The pool.
    pub staking_pool: StakingPool,
    /// The staker's position; a record that was never used on a first stake.
    pub user_stake: UserStakeState,
    /// The bump of the position's address, kept in a record on its first use.
    pub user_stake_bump: u8,
    /// The bonus pool.
    pub bonus_pool: BonusPool,
    /// The referral pool.
    pub referral_pool: ReferralPool,
    /// The referrer who is paid the referral fee of this stake, if any.
    /// Without one, the fee goes to the referral pool.
    pub referrer: Option<Identity>,
}

/// What a stake did: the amounts to move, and the events to report.
#[derive(Debug, Clone, Copy, PartialEq, Eq)]
pub struct StakeReceipt {
    /// The stake, with its fee components and the pool's figures after it.
    pub staked: Staked,
    /// The total fee: the sum of the five components.
    pub total_fee: u64,
    /// What goes to the pool's vault: the net amount and the stakers' fee.
    pub vault_amount: u64,
    /// What the position had pending just before the stake was added.
    pub pending_rewards: u64,
    /// Set where the stake entered the last-ten buffer.
    pub added_to_last_ten: Option<InvestorAddedToLastTen>,
    /// Set where the stake extended the bonus countdown.
    pub countdown_extended: Option<BonusCountdownExtended>,
}

impl Stake {
    /// Whether the position has never been used.
    pub open spec fn first_stake(self) -> bool {
        self.user_stake.user.unset()
    }

    /// The pool's reward per share once the stakers' fee of a stake of
    /// `gross_amount` is credited.
    pub open spec fn reward_per_share_next(self, gross_amount: u64) -> int {
        reward_per_share_after(self.staking_pool, fee_breakdown_of(gross_amount).stakers)
    }

    /// What the position has pending once that fee is credited, before the
    /// net amount is added. A position that holds nothing has nothing pending.
    pub open spec fn pending_before(self, gross_amount: u64) -> int {
        if self.user_stake.staked_amount > 0 {
            pending_rewards(
                self.user_stake.staked_amount as int,
                self.reward_per_share_next(gross_amount),
                self.user_stake.reward_debt as int,
            )
        } else {
            0
        }
    }

    /// What the position holds after the stake: the net amount, on top of
    /// what it held unless it was never used.
    pub open spec fn staked_amount_next(self, gross_amount: u64) -> int {
        if self.first_stake() {
            fee_breakdown_of(gross_amount).net_amount as int
        } else {
            self.user_stake.staked_amount + fee_breakdown_of(gross_amount).net_amount
        }
    }

    /// Whether some figure of the stake does not fit its integer type.
    pub open spec fn overflows(self, gross_amount: u64) -> bool {
        let fees = fee_breakdown_of(gross_amount);
        let reward_per_share = self.reward_per_share_next(gross_amount);
        ||| self.bonus_pool.balance + fees.bonus_pool > u64::MAX
        ||| (self.referrer is None && self.referral_pool.balance + fees.referral > u64::MAX)
        ||| reward_per_share > u128::MAX
        ||| (gross_amount >= BONUS_EXTENSION_THRESHOLD && self.bonus_pool.expiry_timestamp
            + BONUS_EXTENSION_SECONDS > i64::MAX)
        ||| (self.user_stake.staked_amount > 0 && self.user_stake.staked_amount * reward_per_share
            > u128::MAX)
        ||| self.pending_before(gross_amount) > u64::MAX
        ||| self.staked_amount_next(gross_amount) > u64::MAX
        ||| self.staked_amount_next(gross_amount) * reward_per_share > u128::MAX
        ||| self.staking_pool.total_staked + fees.net_amount > u64::MAX
    }

    /// Why a stake of `gross_amount` is refused, or `None` where it goes
    /// through. The first reason that applies is the one reported.
    pub open spec fn stake_failure(self, gross_amount: u64) -> Option<StakingError> {
        if self.global_config.paused {
            Some(StakingError::PoolPaused)
        } else if gross_amount < MIN_STAKE {
            Some(StakingError::StakeTooSmall)
        } else if !fee_split_agrees(gross_amount as int) {
            Some(StakingError::InvalidFeeBreakdown)
        } else if self.overflows(gross_amount) {
            Some(StakingError::MathOverflow)
        } else {
            None
        }
    }

    /// The pool after the stake.
    pub open spec fn staking_pool_next(
        self,
        gross_amount: u64,
        current_timestamp: i64,
    ) -> StakingPool {
        StakingPool {
            total_staked: (self.staking_pool.total_staked + fee_breakdown_of(
                gross_amount,
            ).net_amount) as u64,
            reward_per_share: self.reward_per_share_next(gross_amount) as u128,
            last_update_timestamp: current_timestamp,
            ..self.staking_pool
        }
    }

    /// The position after the stake. Its reward debt is in step with the
    /// pool after the stake. A record that was never used is bound to the
    /// staker, the pool and the referrer of this stake.
    pub open spec fn user_stake_next(
        self,
        gross_amount: u64,
        current_timestamp: i64,
    ) -> UserStakeState {
        let staked_amount = self.staked_amount_next(gross_amount) as u64;
        let reward_debt = accrued_rewards(
            self.staked_amount_next(gross_amount),
            self.reward_per_share_next(gross_amount),
        ) as u128;
        if self.first_stake() {
            UserStakeState {
                user: self.user,
                pool: self.staking_pool_key,
                staked_amount,
                reward_debt,
                stake_timestamp: current_timestamp,
                last_claim_timestamp: current_timestamp,
                referrer: self.referrer,
                bump: self.user_stake_bump,
            }
        } else {
            UserStakeState { staked_amount, reward_debt, ..self.user_stake }
        }
    }

    /// The bonus pool after the stake: it has the bonus fee, and the stake is
    /// its last investment. A stake of one SOL or more also moves the expiry
    /// 15 minutes on and enters the last-ten buffer.
    pub open spec fn bonus_pool_next(self, gross_amount: u64, current_timestamp: i64) -> BonusPool {
        let funded = BonusPool {
            balance: (self.bonus_pool.balance + fee_breakdown_of(gross_amount).bonus_pool) as u64,
            last_investment_timestamp: current_timestamp,
            ..self.bonus_pool
        };
        if gross_amount >= BONUS_EXTENSION_THRESHOLD {
            with_last_ten_entry(
                BonusPool {
                    expiry_timestamp: (self.bonus_pool.expiry_timestamp
                        + BONUS_EXTENSION_SECONDS) as i64,
                    ..funded
                },
                self.user,
                gross_amount,
            )
        } else {
            funded
        }
    }

    /// The referral pool after the stake: it has the referral fee where the
    /// stake names no referrer.
    pub open spec fn referral_pool_next(self, gross_amount: u64) -> ReferralPool {
        if self.referrer is None {
            ReferralPool {
                balance: (self.referral_pool.balance + fee_breakdown_of(
                    gross_amount,
                ).referral) as u64,
                ..self.referral_pool
            }
        } else {
            self.referral_pool
        }
    }

    /// The records after a stake that goes through.
    pub open spec fn staked(self, gross_amount: u64, current_timestamp: i64) -> Stake {
        Stake {
            staking_pool: self.staking_pool_next(gross_amount, current_timestamp),
            user_stake: self.user_stake_next(gross_amount, current_timestamp),
            bonus_pool: self.bonus_pool_next(gross_amount, current_timestamp),
            referral_pool: self.referral_pool_next(gross_amount),
            ..self
        }
    }

    /// What a stake that goes through reports.
    pub open spec fn receipt(self, gross_amount: u64, current_timestamp: i64) -> StakeReceipt {
        let fees = fee_breakdown_of(gross_amount);
        let qualifies = gross_amount >= BONUS_EXTENSION_THRESHOLD;
        StakeReceipt {
            staked: Staked {
                user: self.user,
                gross_amount,
                net_amount: fees.net_amount,
                fee_to_stakers: fees.stakers,
                fee_to_platform: fees.platform,
                fee_to_bonus: fees.bonus_pool,
                fee_to_referral: fees.referral,
                fee_to_material_dart: fees.material_dart,
                referrer: self.referrer,
                total_staked_after: (self.staking_pool.total_staked + fees.net_amount) as u64,
                reward_per_share_after: self.reward_per_share_next(gross_amount) as u128,
                timestamp: current_timestamp,
            },
            total_fee: fees.total_fee,
            vault_amount: (fees.net_amount + fees.stakers) as u64,
            pending_rewards: self.pending_before(gross_amount) as u64,
            added_to_last_ten: if qualifies {
                Some(
                    InvestorAddedToLastTen {
                        investor: self.user,
                        amount: gross_amount,
                        position: self.bonus_pool.current_position,
                        timestamp: current_timestamp,
                    },
                )
            } else {
                None
            },
            countdown_extended: if qualifies {
                Some(
                    BonusCountdownExtended {
                        extended_by: BONUS_EXTENSION_SECONDS,
                        new_expiry: (self.bonus_pool.expiry_timestamp
                            + BONUS_EXTENSION_SECONDS) as i64,
                        staker: self.user,
                        stake_amount: gross_amount,
                        timestamp: current_timestamp,
                    },
                )
            } else {
                None
            },
        }
    }
}

/// Stakes `gross_amount` for `ctx.user` at `current_timestamp`.
///
/// The fee is split off and its parts are credited: the stakers' part to the
/// reward per share of the pool as it stood before this stake, the bonus part
/// to the bonus pool, the referral part to the referral pool unless a
/// referrer is named. The net amount is added to the position and to the
/// pool's total, and the position's reward debt is brought in step with the
/// pool. The receipt names every amount that has to be moved.
///
/// The stake is refused while the protocol is paused, below the minimum,
/// where the fee components do not add up, and where a figure overflows. A
/// refused stake changes nothing.
pub fn stake_handler(
    ctx: &mut Stake,
    gross_amount: u64,
    current_timestamp: i64,
) -> (r: Result<StakeReceipt, StakingError>)
    requires
        old(ctx).bonus_pool.wf(),
    ensures
        match r {
            Ok(receipt) => {
                &&& old(ctx).stake_failure(gross_amount) is None
                &&& *final(ctx) == old(ctx).staked(gross_amount, current_timestamp)
                &&& receipt == old(ctx).receipt(gross_amount, current_timestamp)
                &&& receipt.staked.net_amount + receipt.staked.fee_to_stakers
                    + receipt.staked.fee_to_platform + receipt.staked.fee_to_bonus
                    + receipt.staked.fee_to_referral + receipt.staked.fee_to_material_dart
                    == gross_amount
                &&& final(ctx).user_stake.in_step_with(final(ctx).staking_pool)
            },
            Err(e) => {
                &&& old(ctx).stake_failure(gross_amount) == Some(e)
                &&& *final(ctx) == *old(ctx)
            },
        },
        final(ctx).bonus_pool.wf(),
        final(ctx).staking_pool.reward_per_share >= old(ctx).staking_pool.reward_per_share,
{
    if ctx.global_config.paused {
        return Err(StakingError::PoolPaused);
    }
    if gross_amount < MIN_STAKE {
        return Err(StakingError::StakeTooSmall);
    }
    let user_key = ctx.user;
    let mut staking_pool = ctx.staking_pool;
    let mut user_stake = ctx.user_stake;
    let mut bonus_pool = ctx.bonus_pool;
    let mut referral_pool = ctx.referral_pool;

    let fees = calculate_stake_fee(gross_amount)?;
    verify_fee_breakdown(&fees)?;

    bonus_pool.balance = safe_add(bonus_pool.balance, fees.bonus_pool)?;

    if ctx.referrer.is_none() {
        referral_pool.balance = safe_add(referral_pool.balance, fees.referral)?;
    }
    let external_fees = safe_add(fees.platform, fees.material_dart)?;
    let external_fees = safe_add(external_fees, fees.bonus_pool)?;
    let distributed_external_fees = safe_add(external_fees, fees.referral)?;
    let vault_amount = safe_sub(gross_amount, distributed_external_fees)?;

    if staking_pool.total_staked > 0 {
        update_reward_per_share(&mut staking_pool, fees.stakers)?;
    }
    bonus_pool.last_investment_timestamp = current_timestamp;

    let mut added_to_last_ten: Option<InvestorAddedToLastTen> = None;
    let mut countdown_extended: Option<BonusCountdownExtended> = None;
    if gross_amount >= BONUS_EXTENSION_THRESHOLD {
        extend_bonus_countdown(&mut bonus_pool)?;
        let position = add_to_last_ten(&mut bonus_pool, user_key, gross_amount)?;

        added_to_last_ten = Some(
            InvestorAddedToLastTen {
                investor: user_key,
                amount: gross_amount,
                position,
                timestamp: current_timestamp,
            },
        );
        countdown_extended = Some(
            BonusCountdownExtended {
                extended_by: BONUS_EXTENSION_SECONDS,
                new_expiry: bonus_pool.expiry_timestamp,
                staker: user_key,
                stake_amount: gross_amount,
                timestamp: current_timestamp,
            },
        );
    }
    let pending_rewards = if user_stake.staked_amount > 0 {
        get_pending_rewards(&user_stake, &staking_pool)?
    } else {
        0
    };

    if user_stake.user.is_unset() {
        user_stake.user = user_key;
        user_stake.pool = ctx.staking_pool_key;
        user_stake.staked_amount = 0;
        user_stake.reward_debt = 0;
        user_stake.stake_timestamp = current_timestamp;
        user_stake.last_claim_timestamp = current_timestamp;
        user_stake.referrer = ctx.referrer;
        user_stake.bump = ctx.user_stake_bump;
    }
    user_stake.staked_amount = safe_add(user_stake.staked_amount, fees.net_amount)?;
    user_stake.reward_debt = calculate_reward_debt(
        user_stake.staked_amount,
        staking_pool.reward_per_share,
    )?;

    staking_pool.total_staked = safe_add(staking_pool.total_staked, fees.net_amount)?;
    staking_pool.last_update_timestamp = current_timestamp;

    ctx.staking_pool = staking_pool;
    ctx.user_stake = user_stake;
    ctx.bonus_pool = bonus_pool;
    ctx.referral_pool = referral_pool;

    Ok(
        StakeReceipt {
            staked: Staked {
                user: user_key,
                gross_amount,
                net_amount: fees.net_amount,
                fee_to_stakers: fees.stakers,
                fee_to_platform: fees.platform,
                fee_to_bonus: fees.bonus_pool,
                fee_to_referral: fees.referral,
                fee_to_material_dart: fees.material_dart,
                referrer: ctx.referrer,
                total_staked_after: staking_pool.total_staked,
                reward_per_share_after: staking_pool.reward_per_share,
                timestamp: current_timestamp,
            },
            total_fee: fees.total_fee,
            vault_amount,
            pending_rewards,
            added_to_last_ten,
            countdown_extended,
        },
    )
}

/// A stake adds the same amount to the position and to the pool's total: the
/// net amount. So a pool whose total is the sum of its positions stays one.
/// (A record that was never used holds nothing.)
pub proof fn lemma_stake_adds_net_amount(ctx: Stake, gross_amount: u64, current_timestamp: i64)
    requires
        ctx.stake_failure(gross_amount) is None,
        ctx.first_stake() ==> ctx.user_stake.staked_amount == 0,
    ensures
        ctx.staked(gross_amount, current_timestamp).user_stake.staked_amount
            == ctx.user_stake.staked_amount + fee_breakdown_of(gross_amount).net_amount,
        ctx.staked(gross_amount, current_timestamp).staking_pool.total_staked
            == ctx.staking_pool.total_staked + fee_breakdown_of(gross_amount).net_amount,
        fee_breakdown_of(gross_amount).net_amount + fee_breakdown_of(gross_amount).components_sum()
            == gross_amount,
{
}

/// After a stake nothing is pending: the position's reward debt is what it
/// has accrued under the pool as the stake left it.
pub proof fn lemma_stake_settles_position(ctx: Stake, gross_amount: u64, current_timestamp: i64)
    requires
        ctx.stake_failure(gross_amount) is None,
    ensures
        ctx.staked(gross_amount, current_timestamp).user_stake.in_step_with(
            ctx.staked(gross_amount, current_timestamp).staking_pool,
        ),
        pending_rewards(
            ctx.staked(gross_amount, current_timestamp).user_stake.staked_amount as int,
            ctx.staked(gross_amount, current_timestamp).staking_pool.reward_per_share as int,
            ctx.staked(gross_amount, current_timestamp).user_stake.reward_debt as int,
        ) == 0,
{
}

} // verus!
