//! The fee split: how a gross amount is divided between the stakers, the
//! platform, the bonus pool, the referral and the team, and what is left.

use vstd::prelude::*;
use crate::constants::{
    BPS_DENOMINATOR, FEE_BONUS_POOL_BPS, FEE_MATERIAL_DART_BPS, FEE_PLATFORM_BPS,
    FEE_REFERRAL_BPS, FEE_STAKERS_BPS, TOTAL_FEE_BPS,
};
use crate::errors::StakingError;
use crate::math::{
    bps_share, lemma_product_of_u64_fits, narrow_to_u64, safe_add, safe_div_u128, safe_mul_u128,
    safe_sub,
};

verus! {

/// What is taken from a gross amount, component by component, and what remains.
#[derive(Debug, Clone, Copy, PartialEq, Eq, Structural)]
pub struct FeeBreakdown {
    /// To all stakers, through the reward per share (700 bps).
    pub stakers: u64,
    /// To the platform treasury (100 bps).
    pub platform: u64,
    /// To the bonus pool (100 bps).
    pub bonus_pool: u64,
    /// To the referrer, or to the referral pool (50 bps).
    pub referral: u64,
    /// To the Material Dart team (50 bps).
    pub material_dart: u64,
    /// The sum of the five components.
    pub total_fee: u64,
    /// The gross amount less the total fee.
    pub net_amount: u64,
}

impl FeeBreakdown {
    /// The sum of the five components.
    pub open spec fn components_sum(self) -> int {
        self.stakers + self.platform + self.bonus_pool + self.referral + self.material_dart
    }
}

/// The five components of a gross amount, each floored on its own, added up.
pub open spec fn floored_components_sum(gross_amount: int) -> int {
    bps_share(gross_amount, FEE_STAKERS_BPS as int) + bps_share(
        gross_amount,
        FEE_PLATFORM_BPS as int,
    ) + bps_share(gross_amount, FEE_BONUS_POOL_BPS as int) + bps_share(
        gross_amount,
        FEE_REFERRAL_BPS as int,
    ) + bps_share(gross_amount, FEE_MATERIAL_DART_BPS as int)
}

/// Whether the five floored components add up to the floored total fee.
/// Only then does a gross amount have a fee breakdown.
pub open spec fn fee_split_agrees(gross_amount: int) -> bool {
    floored_components_sum(gross_amount) == bps_share(gross_amount, TOTAL_FEE_BPS as int)
}

/// The fee breakdown of a gross amount on which the split agrees.
pub open spec fn fee_breakdown_of(gross_amount: u64) -> FeeBreakdown {
    let g = gross_amount as int;
    FeeBreakdown {
        stakers: bps_share(g, FEE_STAKERS_BPS as int) as u64,
        platform: bps_share(g, FEE_PLATFORM_BPS as int) as u64,
        bonus_pool: bps_share(g, FEE_BONUS_POOL_BPS as int) as u64,
        referral: bps_share(g, FEE_REFERRAL_BPS as int) as u64,
        material_dart: bps_share(g, FEE_MATERIAL_DART_BPS as int) as u64,
        total_fee: bps_share(g, TOTAL_FEE_BPS as int) as u64,
        net_amount: (g - bps_share(g, TOTAL_FEE_BPS as int)) as u64,
    }
}

/// `floor(gross_amount * bps / 10000)`, the product taken in 128 bits.
///
/// Fails with `MathOverflow` where the share does not fit in a `u64`; with
/// `bps` at most 10000 it always fits.
pub fn calculate_bps_amount(gross_amount: u64, bps: u64) -> (r: Result<u64, StakingError>)
    ensures
        match r {
            Ok(share) => share == bps_share(gross_amount as int, bps as int),
            Err(e) => e == StakingError::MathOverflow && bps_share(
                gross_amount as int,
                bps as int,
            ) > u64::MAX,
        },
        bps <= BPS_DENOMINATOR ==> r is Ok,
{
    proof {
        lemma_product_of_u64_fits(gross_amount, bps);
        if bps <= BPS_DENOMINATOR {
            lemma_bps_share_bounds(gross_amount as int, bps as int);
        }
    }
    let numerator = safe_mul_u128(gross_amount as u128, bps as u128)?;
    let share = safe_div_u128(numerator, BPS_DENOMINATOR as u128)?;
    narrow_to_u64(share)
}

/// The fee breakdown of a stake of `gross_amount`.
///
/// Each component is floored on its own. The total fee is floored on its
/// own too, and the breakdown is refused with `InvalidFeeBreakdown` where the
/// components do not add up to it. There is no other failure. What is
/// returned keeps the whole gross amount: net and components sum to it.
pub fn calculate_stake_fee(gross_amount: u64) -> (r: Result<FeeBreakdown, StakingError>)
    ensures
        match r {
            Ok(fees) => {
                &&& fee_split_agrees(gross_amount as int)
                &&& fees == fee_breakdown_of(gross_amount)
                &&& fees.components_sum() == fees.total_fee
                &&& fees.net_amount + fees.components_sum() == gross_amount
            },
            Err(e) => e == StakingError::InvalidFeeBreakdown && !fee_split_agrees(
                gross_amount as int,
            ),
        },
{
    let stakers = calculate_bps_amount(gross_amount, FEE_STAKERS_BPS)?;
    let platform = calculate_bps_amount(gross_amount, FEE_PLATFORM_BPS)?;
    let bonus_pool = calculate_bps_amount(gross_amount, FEE_BONUS_POOL_BPS)?;
    let referral = calculate_bps_amount(gross_amount, FEE_REFERRAL_BPS)?;
    let material_dart = calculate_bps_amount(gross_amount, FEE_MATERIAL_DART_BPS)?;

    let sum = safe_add(stakers, platform)?;
    let sum = safe_add(sum, bonus_pool)?;
    let sum = safe_add(sum, referral)?;
    let total_fee = safe_add(sum, material_dart)?;

    let expected_total = calculate_bps_amount(gross_amount, TOTAL_FEE_BPS)?;
    if total_fee != expected_total {
        return Err(StakingError::InvalidFeeBreakdown);
    }
    let net_amount = safe_sub(gross_amount, total_fee)?;

    Ok(
        FeeBreakdown {
            stakers,
            platform,
            bonus_pool,
            referral,
            material_dart,
            total_fee,
            net_amount,
        },
    )
}

/// The fee breakdown of an unstake of `gross_amount`: that of a stake of the
/// same amount.
pub fn calculate_unstake_fee(gross_amount: u64) -> (r: Result<FeeBreakdown, StakingError>)
    ensures
        match r {
            Ok(fees) => {
                &&& fee_split_agrees(gross_amount as int)
                &&& fees == fee_breakdown_of(gross_amount)
                &&& fees.components_sum() == fees.total_fee
                &&& fees.net_amount + fees.components_sum() == gross_amount
            },
            Err(e) => e == StakingError::InvalidFeeBreakdown && !fee_split_agrees(
                gross_amount as int,
            ),
        },
{
    calculate_stake_fee(gross_amount)
}

/// Whether the components of a breakdown add up to its total fee.
///
/// Fails with `MathOverflow` where their sum does not fit in a `u64`, and
/// with `InvalidFeeBreakdown` where it fits and is not the total fee.
pub fn verify_fee_breakdown(breakdown: &FeeBreakdown) -> (r: Result<(), StakingError>)
    ensures
        match r {
            Ok(_) => breakdown.components_sum() == breakdown.total_fee,
            Err(e) => if breakdown.components_sum() > u64::MAX {
                e == StakingError::MathOverflow
            } else {
                e == StakingError::InvalidFeeBreakdown && breakdown.components_sum()
                    != breakdown.total_fee
            },
        },
{
    let sum = safe_add(breakdown.stakers, breakdown.platform)?;
    let sum = safe_add(sum, breakdown.bonus_pool)?;
    let sum = safe_add(sum, breakdown.referral)?;
    let calculated_total = safe_add(sum, breakdown.material_dart)?;

    if calculated_total != breakdown.total_fee {
        return Err(StakingError::InvalidFeeBreakdown);
    }
    Ok(())
}

/// With at most 10000 basis points, a share lies between zero and the amount.
pub proof fn lemma_bps_share_bounds(amount: int, bps: int)
    requires
        0 <= amount,
        0 <= bps <= BPS_DENOMINATOR,
    ensures
        0 <= bps_share(amount, bps) <= amount,
{
    assert(0 <= amount * bps <= amount * 10000) by (nonlinear_arith)
        requires
            0 <= amount,
            0 <= bps <= 10000,
    ;
}

/// Nothing is lost and nothing is counted twice: where a gross amount has a
/// fee breakdown, the net amount and the five components sum to the gross
/// amount, and the components sum to the total fee, which is a tenth of the
/// gross amount, rounded down.
pub proof fn lemma_fee_conservation(gross_amount: u64)
    requires
        fee_split_agrees(gross_amount as int),
    ensures
        fee_breakdown_of(gross_amount).net_amount + fee_breakdown_of(gross_amount).components_sum()
            == gross_amount,
        fee_breakdown_of(gross_amount).components_sum() == fee_breakdown_of(
            gross_amount,
        ).total_fee,
        fee_breakdown_of(gross_amount).total_fee == gross_amount / 10,
{
}

/// A gross amount that is a multiple of 200 always has a fee breakdown: no
/// component loses anything to rounding.
pub proof fn lemma_fee_split_agrees_on_multiples_of_200(gross_amount: u64)
    requires
        gross_amount % 200 == 0,
    ensures
        fee_split_agrees(gross_amount as int),
{
}

/// Below ten units no fee is taken: every component is zero, the split
/// agrees, and the whole gross amount is the net amount.
pub proof fn lemma_no_fee_below_ten(gross_amount: u64)
    requires
        gross_amount < 10,
    ensures
        fee_split_agrees(gross_amount as int),
        fee_breakdown_of(gross_amount) == (FeeBreakdown {
            stakers: 0,
            platform: 0,
            bonus_pool: 0,
            referral: 0,
            material_dart: 0,
            total_fee: 0,
            net_amount: gross_amount,
        }),
{
}

} // verus!
