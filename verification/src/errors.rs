//! The failures an operation can report.

use vstd::prelude::*;

verus! {

/// Why an operation was refused. An operation that fails changes nothing.
#[derive(Debug, Clone, Copy, PartialEq, Eq, Structural)]
pub enum StakingError {
    /// A sum or product does not fit its integer type.
    MathOverflow,
    /// A difference would fall below zero.
    MathUnderflow,
    /// The divisor is zero.
    DivisionByZero,
    /// A result contradicts what was computed before it.
    InvalidCalculation,
    /// The stake is below the minimum.
    StakeTooSmall,
    /// The unstake is below the minimum.
    UnstakeTooSmall,
    /// The staker holds less than the amount asked for.
    InsufficientStake,
    /// There is nothing to claim.
    NoRewardsAvailable,
    /// The fee components do not add up to the total fee.
    InvalidFeeBreakdown,
    /// The amount is not acceptable.
    InvalidAmount,
    /// The timestamp is not acceptable.
    InvalidTimestamp,
    /// The protocol is paused.
    PoolPaused,
    /// Neither the countdown nor the inactivity trigger of the bonus pool is met.
    BonusNotExpired,
    /// The pool to distribute holds nothing.
    BonusPoolEmpty,
    /// The referral period has not ended and no distribution was forced.
    ReferralPeriodNotEnded,
    /// The user has no staked position.
    NoStakePosition,
    /// The total staked does not match the positions.
    TotalStakedInvariantViolation,
    /// The reward per share went down.
    RewardPerShareInvariantViolation,
    /// The circular buffer is full.
    CircularBufferFull,
    /// The caller is not the authority.
    Unauthorized,
    /// The authority account is not acceptable.
    InvalidAuthority,
    /// The treasury account is not acceptable.
    InvalidTreasury,
    /// The Material Dart wallet is not acceptable.
    InvalidMaterialDartWallet,
    /// An address was not derived as expected.
    InvalidPDA,
    /// The account is already initialized.
    AlreadyInitialized,
    /// The account is not initialized.
    NotInitialized,
    /// The account has the wrong owner, or is not the one recorded.
    InvalidAccountOwner,
}

} // verus!
