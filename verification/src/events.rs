//! What the operations report: one record per thing that happened, with the
//! exact amounts that were moved.

use vstd::prelude::*;
use crate::identity::Identity;

verus! {

/// The protocol was set up.
#[derive(Debug, Clone, Copy, PartialEq, Eq)]
pub struct ProtocolInitialized {
    pub authority: Identity,
    pub treasury: Identity,
    pub material_dart_wallet: Identity,
    pub timestamp: i64,
}

/// A staker put funds in.
#[derive(Debug, Clone, Copy, PartialEq, Eq)]
pub struct Staked {
    pub user: Identity,
    /// The amount before fees.
    pub gross_amount: u64,
    /// The amount credited to the staker.
    pub net_amount: u64,
    pub fee_to_stakers: u64,
    pub fee_to_platform: u64,
    pub fee_to_bonus: u64,
    pub fee_to_referral: u64,
    pub fee_to_material_dart: u64,
    /// Who received the referral fee; `None` where it went to the referral pool.
    pub referrer: Option<Identity>,
    pub total_staked_after: u64,
    pub reward_per_share_after: u128,
    pub timestamp: i64,
}

/// A staker took funds out.
#[derive(Debug, Clone, Copy, PartialEq, Eq)]
pub struct Unstaked {
    pub user: Identity,
    /// The amount taken from the position.
    pub gross_amount: u64,
    /// The amount returned to the staker for it.
    pub net_amount: u64,
    /// The rewards paid out with it, free of fees.
    pub rewards_claimed: u64,
    pub fee_to_stakers: u64,
    pub fee_to_platform: u64,
    pub fee_to_bonus: u64,
    pub fee_to_referral: u64,
    pub fee_to_material_dart: u64,
    pub total_staked_after: u64,
    pub timestamp: i64,
}

/// A staker claimed rewards.
#[derive(Debug, Clone, Copy, PartialEq, Eq)]
pub struct RewardsClaimed {
    pub user: Identity,
    /// The amount paid.
    pub amount: u64,
    pub reward_debt_after: u128,
    pub timestamp: i64,
}

/// The bonus pool was distributed.
#[derive(Debug, Clone, Copy, PartialEq, Eq)]
pub struct BonusPoolExpired {
    /// What left the bonus pool: the two shares together.
    pub total_distributed: u64,
    pub to_last_ten: u64,
    pub to_all_stakers: u64,
    pub carried_forward: u64,
    pub last_ten_count: u8,
    pub countdown_reset_to: i64,
    pub timestamp: i64,
}

/// A stake of one SOL or more extended the bonus countdown.
#[derive(Debug, Clone, Copy, PartialEq, Eq)]
pub struct BonusCountdownExtended {
    /// Seconds added.
    pub extended_by: i64,
    pub new_expiry: i64,
    pub staker: Identity,
    pub stake_amount: u64,
    pub timestamp: i64,
}

/// A referral commission was paid.
#[derive(Debug, Clone, Copy, PartialEq, Eq)]
pub struct ReferralPaid {
    pub referrer: Identity,
    pub referee: Identity,
    pub amount: u64,
    pub timestamp: i64,
}

/// The referral pool was distributed.
#[derive(Debug, Clone, Copy, PartialEq, Eq)]
pub struct ReferralPoolDistributed {
    /// The balance that was split.
    pub total_distributed: u64,
    pub to_stakers: u64,
    pub carried_forward: u64,
    pub next_distribution: i64,
    pub timestamp: i64,
}

/// A stake of one SOL or more entered the last-ten buffer.
#[derive(Debug, Clone, Copy, PartialEq, Eq)]
pub struct InvestorAddedToLastTen {
    pub investor: Identity,
    pub amount: u64,
    /// The buffer position that was written.
    pub position: u8,
    pub timestamp: i64,
}

/// The protocol was paused or resumed.
#[derive(Debug, Clone, Copy, PartialEq, Eq)]
pub struct PoolPauseToggled {
    pub paused: bool,
    pub authority: Identity,
    pub timestamp: i64,
}

} // verus!
