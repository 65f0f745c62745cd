//! Checked integer arithmetic over `u64` and `u128`, and the fixed-point
//! formulas of the reward ledger.
//!
//! Nothing here wraps or panics: each function returns the exact result, or
//! the failure that says why there is none. Products of two 64-bit amounts
//! are taken in 128 bits and narrowed afterwards.

use vstd::prelude::*;
use crate::constants::{BPS_DENOMINATOR, REWARD_PRECISION};
use crate::errors::StakingError;

verus! {

/// `floor(amount * bps / 10000)`: the share of `amount` that `bps` basis
/// points stand for, rounded down.
pub open spec fn bps_share(amount: int, bps: int) -> int {
    amount * bps / (BPS_DENOMINATOR as int)
}

/// `floor(fee_amount * P / total_staked)`: what a fee adds to the
/// reward-per-share accumulator, `P` being the reward precision.
pub open spec fn reward_per_share_delta(fee_amount: int, total_staked: int) -> int
    recommends
        total_staked > 0,
{
    fee_amount * (REWARD_PRECISION as int) / total_staked
}

/// `floor(staked_amount * reward_per_share / P)`: everything a stake of this
/// size has earned since the accumulator stood at zero.
pub open spec fn accrued_rewards(staked_amount: int, reward_per_share: int) -> int {
    staked_amount * reward_per_share / (REWARD_PRECISION as int)
}

/// What a staker can claim: the accrued rewards less the reward debt, and
/// zero where the debt is the larger.
pub open spec fn pending_rewards(
    staked_amount: int,
    reward_per_share: int,
    reward_debt: int,
) -> int {
    let accrued = accrued_rewards(staked_amount, reward_per_share);
    if accrued < reward_debt {
        0
    } else {
        accrued - reward_debt
    }
}

/// `floor(investor_amount * total_to_distribute / total_invested)`, and zero
/// where nothing was invested.
pub open spec fn pro_rata_share(
    investor_amount: int,
    total_invested: int,
    total_to_distribute: int,
) -> int {
    if total_invested == 0 {
        0
    } else {
        investor_amount * total_to_distribute / total_invested
    }
}

/// `a + b`, or `MathOverflow` where the sum does not fit in a `u64`.
pub fn safe_add(a: u64, b: u64) -> (r: Result<u64, StakingError>)
    ensures
        match r {
            Ok(sum) => sum == a + b,
            Err(e) => e == StakingError::MathOverflow && a + b > u64::MAX,
        },
{
    match a.checked_add(b) {
        Some(sum) => Ok(sum),
        None => Err(StakingError::MathOverflow),
    }
}

/// `a - b`, or `MathUnderflow` where `a < b`.
pub fn safe_sub(a: u64, b: u64) -> (r: Result<u64, StakingError>)
    ensures
        match r {
            Ok(difference) => difference == a - b,
            Err(e) => e == StakingError::MathUnderflow && a < b,
        },
{
    match a.checked_sub(b) {
        Some(difference) => Ok(difference),
        None => Err(StakingError::MathUnderflow),
    }
}

/// `a * b`, or `MathOverflow` where the product does not fit in a `u64`.
pub fn safe_mul(a: u64, b: u64) -> (r: Result<u64, StakingError>)
    ensures
        match r {
            Ok(product) => product == a * b,
            Err(e) => e == StakingError::MathOverflow && a * b > u64::MAX,
        },
{
    match a.checked_mul(b) {
        Some(product) => Ok(product),
        None => Err(StakingError::MathOverflow),
    }
}

/// `floor(a / b)`, or `DivisionByZero` where `b` is zero.
pub fn safe_div(a: u64, b: u64) -> (r: Result<u64, StakingError>)
    ensures
        match r {
            Ok(quotient) => b != 0 && quotient == a / b,
            Err(e) => e == StakingError::DivisionByZero && b == 0,
        },
{
    if b == 0 {
        return Err(StakingError::DivisionByZero);
    }
    Ok(a / b)
}

/// `a + b`, or `MathOverflow` where the sum does not fit in a `u128`.
pub fn safe_add_u128(a: u128, b: u128) -> (r: Result<u128, StakingError>)
    ensures
        match r {
            Ok(sum) => sum == a + b,
            Err(e) => e == StakingError::MathOverflow && a + b > u128::MAX,
        },
{
    match a.checked_add(b) {
        Some(sum) => Ok(sum),
        None => Err(StakingError::MathOverflow),
    }
}

/// `a * b`, or `MathOverflow` where the product does not fit in a `u128`.
pub fn safe_mul_u128(a: u128, b: u128) -> (r: Result<u128, StakingError>)
    ensures
        match r {
            Ok(product) => product == a * b,
            Err(e) => e == StakingError::MathOverflow && a * b > u128::MAX,
        },
{
    match a.checked_mul(b) {
        Some(product) => Ok(product),
        None => Err(StakingError::MathOverflow),
    }
}

/// `floor(a / b)`, or `DivisionByZero` where `b` is zero.
pub fn safe_div_u128(a: u128, b: u128) -> (r: Result<u128, StakingError>)
    ensures
        match r {
            Ok(quotient) => b != 0 && quotient == a / b,
            Err(e) => e == StakingError::DivisionByZero && b == 0,
        },
{
    if b == 0 {
        return Err(StakingError::DivisionByZero);
    }
    Ok(a / b)
}

/// The `u64` that a 128-bit value holds, or `MathOverflow` where it is too
/// large for one.
pub fn narrow_to_u64(value: u128) -> (r: Result<u64, StakingError>)
    ensures
        match r {
            Ok(narrow) => narrow == value,
            Err(e) => e == StakingError::MathOverflow && value > u64::MAX,
        },
{
    if value > u64::MAX as u128 {
        return Err(StakingError::MathOverflow);
    }
    Ok(value as u64)
}

/// What a fee of `fee_amount` adds to the reward per share of a pool that
/// holds `total_staked`.
///
/// Fails with `DivisionByZero` on an empty pool and on nothing else: the
/// product of a `u64` and the precision always fits in 128 bits.
pub fn calculate_reward_per_share_increase(
    fee_amount: u64,
    total_staked: u64,
) -> (r: Result<u128, StakingError>)
    ensures
        match r {
            Ok(increase) => total_staked != 0 && increase == reward_per_share_delta(
                fee_amount as int,
                total_staked as int,
            ),
            Err(e) => e == StakingError::DivisionByZero && total_staked == 0,
        },
{
    if total_staked == 0 {
        return Err(StakingError::DivisionByZero);
    }
    let fee_amount_u128 = fee_amount as u128;
    let total_staked_u128 = total_staked as u128;
    let precision = REWARD_PRECISION;

    let numerator = safe_mul_u128(fee_amount_u128, precision)?;
    let increase = safe_div_u128(numerator, total_staked_u128)?;

    Ok(increase)
}

/// What a staker can claim now.
///
/// Fails with `MathOverflow` where `staked_amount * reward_per_share` does
/// not fit in 128 bits, or where the claim does not fit in a `u64`.
pub fn calculate_pending_rewards(
    staked_amount: u64,
    reward_per_share: u128,
    reward_debt: u128,
) -> (r: Result<u64, StakingError>)
    ensures
        match r {
            Ok(pending) => {
                &&& staked_amount * reward_per_share <= u128::MAX
                &&& pending == pending_rewards(
                    staked_amount as int,
                    reward_per_share as int,
                    reward_debt as int,
                )
            },
            Err(e) => {
                &&& e == StakingError::MathOverflow
                &&& (staked_amount * reward_per_share > u128::MAX || pending_rewards(
                    staked_amount as int,
                    reward_per_share as int,
                    reward_debt as int,
                ) > u64::MAX)
            },
        },
{
    let staked_u128 = staked_amount as u128;
    let precision = REWARD_PRECISION;

    let earned = safe_mul_u128(staked_u128, reward_per_share)?;
    let earned_scaled = safe_div_u128(earned, precision)?;

    if earned_scaled < reward_debt {
        return Ok(0);
    }
    let pending = earned_scaled - reward_debt;

    narrow_to_u64(pending)
}

/// The reward debt of a stake that is in step with the accumulator:
/// `floor(staked_amount * reward_per_share / P)`.
///
/// Fails with `MathOverflow` where the product does not fit in 128 bits.
pub fn calculate_reward_debt(
    staked_amount: u64,
    reward_per_share: u128,
) -> (r: Result<u128, StakingError>)
    ensures
        match r {
            Ok(debt) => {
                &&& staked_amount * reward_per_share <= u128::MAX
                &&& debt == accrued_rewards(staked_amount as int, reward_per_share as int)
            },
            Err(e) => e == StakingError::MathOverflow && staked_amount * reward_per_share
                > u128::MAX,
        },
{
    let staked_u128 = staked_amount as u128;
    let precision = REWARD_PRECISION;

    let earned = safe_mul_u128(staked_u128, reward_per_share)?;

    safe_div_u128(earned, precision)
}

/// The part of `total_to_distribute` that falls to one investor, in
/// proportion to what they put in; zero where nothing was invested.
///
/// Fails with `MathOverflow` where the share does not fit in a `u64`, which
/// takes an `investor_amount` above `total_invested`.
pub fn calculate_pro_rata_share(
    investor_amount: u64,
    total_invested: u64,
    total_to_distribute: u64,
) -> (r: Result<u64, StakingError>)
    ensures
        match r {
            Ok(share) => share == pro_rata_share(
                investor_amount as int,
                total_invested as int,
                total_to_distribute as int,
            ),
            Err(e) => e == StakingError::MathOverflow && pro_rata_share(
                investor_amount as int,
                total_invested as int,
                total_to_distribute as int,
            ) > u64::MAX,
        },
        investor_amount <= total_invested ==> r is Ok,
{
    if total_invested == 0 {
        return Ok(0);
    }
    let investor_u128 = investor_amount as u128;
    let total_to_distribute_u128 = total_to_distribute as u128;
    let total_invested_u128 = total_invested as u128;

    proof {
        lemma_product_of_u64_fits(investor_amount, total_to_distribute);
        if investor_amount <= total_invested {
            lemma_share_within_total(
                investor_amount as int,
                total_invested as int,
                total_to_distribute as int,
            );
        }
    }
    let numerator = safe_mul_u128(investor_u128, total_to_distribute_u128)?;
    let share = safe_div_u128(numerator, total_invested_u128)?;

    narrow_to_u64(share)
}

/// Nobody ever owes the pool: what a position has pending is never negative,
/// whatever the staked amount, the reward per share and the reward debt.
pub proof fn lemma_pending_rewards_not_negative(
    staked_amount: int,
    reward_per_share: int,
    reward_debt: int,
)
    ensures
        pending_rewards(staked_amount, reward_per_share, reward_debt) >= 0,
{
}

/// A position whose reward debt is what it has accrued has nothing pending.
pub proof fn lemma_nothing_pending_in_step(staked_amount: int, reward_per_share: int)
    ensures
        pending_rewards(
            staked_amount,
            reward_per_share,
            accrued_rewards(staked_amount, reward_per_share),
        ) == 0,
{
}

/// The product of two `u64` values fits in 128 bits.
pub proof fn lemma_product_of_u64_fits(a: u64, b: u64)
    ensures
        a * b <= u128::MAX,
{
    assert(a * b <= 0xffff_ffff_ffff_ffff * 0xffff_ffff_ffff_ffff) by (nonlinear_arith)
        requires
            0 <= a <= 0xffff_ffff_ffff_ffff,
            0 <= b <= 0xffff_ffff_ffff_ffff,
    ;
}

/// A pro-rata share never exceeds what is distributed, as long as the
/// investor's amount is part of the total.
pub proof fn lemma_share_within_total(
    investor_amount: int,
    total_invested: int,
    total_to_distribute: int,
)
    requires
        0 <= investor_amount <= total_invested,
        0 <= total_to_distribute,
    ensures
        0 <= pro_rata_share(investor_amount, total_invested, total_to_distribute)
            <= total_to_distribute,
{
    if total_invested > 0 {
        assert(0 <= investor_amount * total_to_distribute <= total_invested * total_to_distribute)
            by (nonlinear_arith)
            requires
                0 <= investor_amount <= total_invested,
                0 <= total_to_distribute,
        ;
        vstd::arithmetic::div_mod::lemma_div_is_ordered(
            investor_amount * total_to_distribute,
            total_invested * total_to_distribute,
            total_invested,
        );
        vstd::arithmetic::div_mod::lemma_div_pos_is_pos(
            investor_amount * total_to_distribute,
            total_invested,
        );
        assert(total_invested * total_to_distribute / total_invested == total_to_distribute)
            by (nonlinear_arith)
            requires
                total_invested > 0,
        ;
    }
}

} // verus!
