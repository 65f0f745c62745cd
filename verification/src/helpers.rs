//! The steps the operations are made of: the reward ledger, the bonus
//! countdown and buffer, and the two distribution splits.

use vstd::prelude::*;
use crate::constants::{
    BONUS_EXTENSION_SECONDS, BONUS_INACTIVITY_THRESHOLD, MAX_LAST_TEN_INVESTORS,
};
use crate::errors::StakingError;
use crate::fees::{calculate_bps_amount, lemma_bps_share_bounds};
use crate::identity::Identity;
use crate::math::{
    bps_share, calculate_pending_rewards, calculate_reward_per_share_increase, pending_rewards,
    reward_per_share_delta, safe_add, safe_add_u128,
};
use crate::state::{BonusPool, LastTenInvestor, ReferralPool, StakingPool, UserStakeState};

verus! {

/// The reward per share of `pool` once a fee of `fee_amount` is credited to
/// its stakers. An empty pool has nobody to credit and stays as it is.
pub open spec fn reward_per_share_after(pool: StakingPool, fee_amount: u64) -> int {
    if pool.total_staked == 0 {
        pool.reward_per_share as int
    } else {
        pool.reward_per_share + reward_per_share_delta(
            fee_amount as int,
            pool.total_staked as int,
        )
    }
}

/// Credits a fee to all stakers of `pool` by raising its reward per share.
///
/// On an empty pool this does nothing and succeeds. It fails with
/// `MathOverflow` where the new reward per share does not fit in 128 bits, and
/// then leaves the pool as it was. Only the reward per share changes, and it
/// never goes down.
pub fn update_reward_per_share(
    pool: &mut StakingPool,
    fee_amount: u64,
) -> (r: Result<(), StakingError>)
    ensures
        match r {
            Ok(_) => {
                &&& reward_per_share_after(*old(pool), fee_amount) <= u128::MAX
                &&& *final(pool) == (StakingPool {
                    reward_per_share: reward_per_share_after(*old(pool), fee_amount) as u128,
                    ..*old(pool)
                })
            },
            Err(e) => {
                &&& e == StakingError::MathOverflow
                &&& reward_per_share_after(*old(pool), fee_amount) > u128::MAX
                &&& *final(pool) == *old(pool)
            },
        },
        final(pool).reward_per_share >= old(pool).reward_per_share,
{
    if pool.total_staked == 0 {
        return Ok(());
    }
    let increase = calculate_reward_per_share_increase(fee_amount, pool.total_staked)?;
    pool.reward_per_share = safe_add_u128(pool.reward_per_share, increase)?;

    Ok(())
}

/// What `user` can claim from `pool` now.
///
/// Fails with `MathOverflow` where the staked amount times the reward per
/// share does not fit in 128 bits, or the claim does not fit in a `u64`.
pub fn get_pending_rewards(
    user: &UserStakeState,
    pool: &StakingPool,
) -> (r: Result<u64, StakingError>)
    ensures
        match r {
            Ok(pending) => {
                &&& user.staked_amount * pool.reward_per_share <= u128::MAX
                &&& pending == pending_rewards(
                    user.staked_amount as int,
                    pool.reward_per_share as int,
                    user.reward_debt as int,
                )
            },
            Err(e) => {
                &&& e == StakingError::MathOverflow
                &&& (user.staked_amount * pool.reward_per_share > u128::MAX || pending_rewards(
                    user.staked_amount as int,
                    pool.reward_per_share as int,
                    user.reward_debt as int,
                ) > u64::MAX)
            },
        },
{
    calculate_pending_rewards(user.staked_amount, pool.reward_per_share, user.reward_debt)
}

/// Moves the expiry of the bonus countdown 15 minutes further.
///
/// Fails with `MathOverflow` where the new expiry does not fit in an `i64`,
/// and then leaves the pool as it was.
pub fn extend_bonus_countdown(bonus_pool: &mut BonusPool) -> (r: Result<(), StakingError>)
    ensures
        match r {
            Ok(_) => {
                &&& old(bonus_pool).expiry_timestamp + BONUS_EXTENSION_SECONDS <= i64::MAX
                &&& *final(bonus_pool) == (BonusPool {
                    expiry_timestamp: (old(bonus_pool).expiry_timestamp
                        + BONUS_EXTENSION_SECONDS) as i64,
                    ..*old(bonus_pool)
                })
            },
            Err(e) => {
                &&& e == StakingError::MathOverflow
                &&& old(bonus_pool).expiry_timestamp + BONUS_EXTENSION_SECONDS > i64::MAX
                &&& *final(bonus_pool) == *old(bonus_pool)
            },
        },
{
    match bonus_pool.expiry_timestamp.checked_add(BONUS_EXTENSION_SECONDS) {
        Some(new_expiry) => {
            bonus_pool.expiry_timestamp = new_expiry;
            Ok(())
        },
        None => Err(StakingError::MathOverflow),
    }
}

/// The bonus pool once `investor` and `amount` are written at the cursor:
/// the entry there is replaced, the cursor moves on by one and wraps at the
/// capacity, and the count of filled entries grows until it reaches the
/// capacity.
pub open spec fn with_last_ten_entry(
    bonus_pool: BonusPool,
    investor: Identity,
    amount: u64,
) -> BonusPool {
    BonusPool {
        last_ten_investors: vstd::array::spec_array_update(
            bonus_pool.last_ten_investors,
            bonus_pool.current_position as int,
            LastTenInvestor { investor, amount },
        ),
        current_position: ((bonus_pool.current_position + 1) % (MAX_LAST_TEN_INVESTORS
            as int)) as u8,
        investor_count: if bonus_pool.investor_count < MAX_LAST_TEN_INVESTORS {
            (bonus_pool.investor_count + 1) as u8
        } else {
            bonus_pool.investor_count
        },
        ..bonus_pool
    }
}

/// Writes `investor` and `amount` into the last-ten buffer, over the oldest
/// entry once the buffer is full, and returns the position written.
pub fn add_to_last_ten(
    bonus_pool: &mut BonusPool,
    investor: Identity,
    amount: u64,
) -> (r: Result<u8, StakingError>)
    requires
        old(bonus_pool).wf(),
    ensures
        r == Ok::<u8, StakingError>(old(bonus_pool).current_position),
        *final(bonus_pool) == with_last_ten_entry(*old(bonus_pool), investor, amount),
        final(bonus_pool).wf(),
        final(bonus_pool).last_ten_investors@ == old(bonus_pool).last_ten_investors@.update(
            old(bonus_pool).current_position as int,
            LastTenInvestor { investor, amount },
        ),
{
    let position = bonus_pool.current_position as usize;
    bonus_pool.last_ten_investors[position] = LastTenInvestor { investor, amount };

    let new_position = (bonus_pool.current_position + 1) % (MAX_LAST_TEN_INVESTORS as u8);
    bonus_pool.current_position = new_position;

    if (bonus_pool.investor_count as usize) < MAX_LAST_TEN_INVESTORS {
        bonus_pool.investor_count += 1;
    }
    Ok(position as u8)
}

/// Whether the bonus countdown has run out at `current_timestamp`.
pub open spec fn bonus_countdown_expired(bonus_pool: BonusPool, current_timestamp: i64) -> bool {
    current_timestamp >= bonus_pool.expiry_timestamp
}

/// Whether, at `current_timestamp`, nobody has staked for six hours or more.
pub open spec fn bonus_inactive(bonus_pool: BonusPool, current_timestamp: i64) -> bool {
    current_timestamp - bonus_pool.last_investment_timestamp >= BONUS_INACTIVITY_THRESHOLD
}

/// Whether the bonus pool may be distributed at `current_timestamp`: the
/// countdown has run out, or nobody has staked for six hours.
pub open spec fn bonus_distribution_due(bonus_pool: BonusPool, current_timestamp: i64) -> bool {
    bonus_countdown_expired(bonus_pool, current_timestamp) || bonus_inactive(
        bonus_pool,
        current_timestamp,
    )
}

/// Whether the bonus countdown has run out.
pub fn check_bonus_expiry(bonus_pool: &BonusPool, current_timestamp: i64) -> (r: bool)
    ensures
        r == bonus_countdown_expired(*bonus_pool, current_timestamp),
{
    current_timestamp >= bonus_pool.expiry_timestamp
}

/// Whether nobody has staked for six hours or more. The elapsed time is
/// taken exactly, whatever the two timestamps are.
pub fn check_inactivity_trigger(bonus_pool: &BonusPool, current_timestamp: i64) -> (r: bool)
    ensures
        r == bonus_inactive(*bonus_pool, current_timestamp),
{
    match current_timestamp.checked_sub(bonus_pool.last_investment_timestamp) {
        Some(time_since_last_investment) => time_since_last_investment
            >= BONUS_INACTIVITY_THRESHOLD,
        None => current_timestamp > bonus_pool.last_investment_timestamp,
    }
}

/// The three parts of a bonus pool of `total_bonus`: 40% for the last
/// investors, 40% for all stakers, and the rest, which is carried forward.
/// The two shares are floored; the carry takes what they leave.
pub open spec fn bonus_split(total_bonus: u64) -> (u64, u64, u64) {
    let share = bps_share(total_bonus as int, 4000);
    (share as u64, share as u64, (total_bonus - 2 * share) as u64)
}

/// Splits a bonus pool of `total_bonus` 40/40/20. Returns what goes to the
/// last investors, what goes to all stakers, and what is carried forward.
///
/// It never fails, and the three parts sum to `total_bonus` exactly: what
/// flooring takes from the shares is added to the carry.
pub fn calculate_bonus_distribution(total_bonus: u64) -> (r: Result<(u64, u64, u64), StakingError>)
    ensures
        r == Ok::<(u64, u64, u64), StakingError>(bonus_split(total_bonus)),
        bonus_split(total_bonus).0 + bonus_split(total_bonus).1 + bonus_split(total_bonus).2
            == total_bonus,
{
    proof {
        lemma_bps_share_bounds(total_bonus as int, 4000);
        lemma_bps_share_bounds(total_bonus as int, 2000);
    }
    let to_last_ten = calculate_bps_percentage(total_bonus, 4000)?;
    let to_all_stakers = calculate_bps_percentage(total_bonus, 4000)?;
    let carry_forward = calculate_bps_percentage(total_bonus, 2000)?;

    let distributed = safe_add(to_last_ten, to_all_stakers)?;
    let total_distributed = safe_add(distributed, carry_forward)?;

    let remainder = total_bonus.saturating_sub(total_distributed);
    let carry_forward_final = safe_add(carry_forward, remainder)?;

    Ok((to_last_ten, to_all_stakers, carry_forward_final))
}

/// The two parts of a referral pool of `total_pool`: half for the stakers,
/// rounded down, and the rest, which is carried forward.
pub open spec fn referral_split(total_pool: u64) -> (u64, u64) {
    (total_pool / 2, (total_pool - total_pool / 2) as u64)
}

/// Splits a referral pool of `total_pool` 50/50. Returns what goes to the
/// stakers and what is carried forward.
///
/// It never fails, and the two parts sum to `total_pool` exactly.
pub fn calculate_referral_distribution(total_pool: u64) -> (r: Result<(u64, u64), StakingError>)
    ensures
        r == Ok::<(u64, u64), StakingError>(referral_split(total_pool)),
        referral_split(total_pool).0 + referral_split(total_pool).1 == total_pool,
{
    proof {
        lemma_bps_share_bounds(total_pool as int, 5000);
    }
    let to_stakers = calculate_bps_percentage(total_pool, 5000)?;
    let carry_forward = total_pool.saturating_sub(to_stakers);

    Ok((to_stakers, carry_forward))
}

/// Whether the referral period has ended at `current_timestamp`.
pub open spec fn referral_distribution_due(
    referral_pool: ReferralPool,
    current_timestamp: i64,
) -> bool {
    current_timestamp >= referral_pool.next_distribution_timestamp
}

/// Whether the referral period has ended.
pub fn check_referral_distribution_due(
    referral_pool: &ReferralPool,
    current_timestamp: i64,
) -> (r: bool)
    ensures
        r == referral_distribution_due(*referral_pool, current_timestamp),
{
    current_timestamp >= referral_pool.next_distribution_timestamp
}

/// `floor(amount * bps / 10000)`.
///
/// Fails with `MathOverflow` where the share does not fit in a `u64`; with
/// `bps` at most 10000 it always fits.
pub fn calculate_bps_percentage(amount: u64, bps: u64) -> (r: Result<u64, StakingError>)
    ensures
        match r {
            Ok(share) => share == bps_share(amount as int, bps as int),
            Err(e) => e == StakingError::MathOverflow && bps_share(amount as int, bps as int)
                > u64::MAX,
        },
        bps <= 10000 ==> r is Ok,
{
    calculate_bps_amount(amount, bps)
}

} // verus!
