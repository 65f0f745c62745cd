//! Protocol constants. Amounts are in lamports, durations in seconds.

use vstd::prelude::*;

verus! {

/// Lamports per SOL.
pub const LAMPORTS_PER_SOL: u64 = 1_000_000_000;

/// Smallest gross amount that may be staked (0.01 SOL).
pub const MIN_STAKE: u64 = 10_000_000;

/// Smallest gross amount that may be unstaked (0.01 SOL).
pub const MIN_UNSTAKE: u64 = 10_000_000;

/// A stake of at least this much extends the bonus countdown (1 SOL).
pub const BONUS_EXTENSION_THRESHOLD: u64 = LAMPORTS_PER_SOL;

/// A stake of at least this much enters the last-ten buffer (1 SOL).
pub const BONUS_LAST_TEN_THRESHOLD: u64 = LAMPORTS_PER_SOL;

/// Share of a gross amount that goes to all stakers, in basis points.
pub const FEE_STAKERS_BPS: u64 = 700;

/// Share that goes to the platform treasury, in basis points.
pub const FEE_PLATFORM_BPS: u64 = 100;

/// Share that goes to the bonus pool, in basis points.
pub const FEE_BONUS_POOL_BPS: u64 = 100;

/// Share that goes to the referrer or the referral pool, in basis points.
pub const FEE_REFERRAL_BPS: u64 = 50;

/// Share that goes to the Material Dart team, in basis points.
pub const FEE_MATERIAL_DART_BPS: u64 = 50;

/// The whole fee, in basis points: the sum of the five shares.
pub const TOTAL_FEE_BPS: u64 = 1000;

/// Basis points in a whole.
pub const BPS_DENOMINATOR: u64 = 10000;

/// Length of a fresh bonus countdown (12 hours).
pub const BONUS_INITIAL_COUNTDOWN: i64 = 43200;

/// What one qualifying stake adds to the bonus countdown (15 minutes).
pub const BONUS_EXTENSION_SECONDS: i64 = 900;

/// Time without a stake after which the bonus pool may be distributed (6 hours).
pub const BONUS_INACTIVITY_THRESHOLD: i64 = 21600;

/// Capacity of the last-ten buffer.
pub const MAX_LAST_TEN_INVESTORS: usize = 10;

/// Time between two distributions of the referral pool (30 days).
pub const REFERRAL_DISTRIBUTION_PERIOD: i64 = 2592000;

/// Scale of the reward-per-share accumulator.
pub const REWARD_PRECISION: u128 = 1_000_000_000_000;

/// Lamports per SOL, as a precision.
pub const PRECISION: u64 = LAMPORTS_PER_SOL;

} // verus!
