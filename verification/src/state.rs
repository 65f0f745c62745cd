//! The records of the protocol: the global parameters, the pool, one record
//! per staker, and the two periodic pools.

use vstd::prelude::*;
use crate::constants::MAX_LAST_TEN_INVESTORS;
use crate::identity::Identity;
use crate::math::accrued_rewards;

verus! {

/// The global parameters, fixed at setup.
#[derive(Debug, Clone, Copy, PartialEq, Eq)]
pub struct GlobalConfig {
    /// Who may change settings and force a referral distribution.
    pub authority: Identity,
    /// Where the platform's share of each fee goes.
    pub treasury: Identity,
    /// Where the team's share of each fee goes.
    pub material_dart_wallet: Identity,
    /// While set, nobody can stake, unstake or claim. The periodic
    /// distributions go on.
    pub paused: bool,
    /// Whether the protocol was set up.
    pub is_initialized: bool,
    /// The bump of the record's address.
    pub bump: u8,
}

/// The staking pool.
#[derive(Debug, Clone, Copy, PartialEq, Eq)]
pub struct StakingPool {
    /// The global parameters this pool belongs to.
    pub config: Identity,
    /// The sum of what all stakers hold, net of fees.
    pub total_staked: u64,
    /// Rewards accumulated per staked unit, scaled by the reward precision.
    /// It never goes down.
    pub reward_per_share: u128,
    /// When the pool was last changed by a stake or an unstake.
    pub last_update_timestamp: i64,
    /// The bump of the record's address.
    pub bump: u8,
}

/// One staker's position.
#[derive(Debug, Clone, Copy, PartialEq, Eq)]
pub struct UserStakeState {
    /// The staker; all zero in a record that was never used.
    pub user: Identity,
    /// The pool the position is in.
    pub pool: Identity,
    /// What the staker holds, net of fees.
    pub staked_amount: u64,
    /// What the position had accrued when it last changed or was claimed.
    pub reward_debt: u128,
    /// When the staker first staked.
    pub stake_timestamp: i64,
    /// When the staker last claimed.
    pub last_claim_timestamp: i64,
    /// Who referred the staker, set by the first stake and never changed.
    pub referrer: Option<Identity>,
    /// The bump of the record's address.
    pub bump: u8,
}

impl UserStakeState {
    /// Whether the reward debt equals what the position has accrued under
    /// `pool`, so that nothing is pending.
    pub open spec fn in_step_with(self, pool: StakingPool) -> bool {
        self.reward_debt == accrued_rewards(
            self.staked_amount as int,
            pool.reward_per_share as int,
        )
    }
}

/// One entry of the last-ten buffer.
#[derive(Debug, Clone, Copy, PartialEq, Eq)]
pub struct LastTenInvestor {
    /// Who staked.
    pub investor: Identity,
    /// The gross amount they staked.
    pub amount: u64,
}

impl LastTenInvestor {
    /// The entry of a buffer position that was never written: nobody, and
    /// nothing staked.
    pub open spec fn empty() -> LastTenInvestor {
        LastTenInvestor { investor: Identity::zero(), amount: 0 }
    }
}

impl Default for LastTenInvestor {
    /// The entry of a buffer position that was never written.
    fn default() -> (entry: LastTenInvestor)
        ensures
            entry == LastTenInvestor::empty(),
    {
        LastTenInvestor { investor: Identity::default(), amount: 0 }
    }
}

/// The bonus pool: a balance, a countdown, and a circular buffer of the last
/// stakers of one SOL or more.
#[derive(Debug, Clone, Copy, PartialEq, Eq)]
pub struct BonusPool {
    /// The pool this bonus pool belongs to.
    pub staking_pool: Identity,
    /// What the bonus pool holds.
    pub balance: u64,
    /// When the countdown runs out.
    pub expiry_timestamp: i64,
    /// When somebody last staked, or the pool was last distributed.
    pub last_investment_timestamp: i64,
    /// The buffer. Entries below `investor_count` are filled.
    pub last_ten_investors: [LastTenInvestor; MAX_LAST_TEN_INVESTORS],
    /// Where the next entry is written.
    pub current_position: u8,
    /// How many entries are filled.
    pub investor_count: u8,
    /// The bump of the record's address.
    pub bump: u8,
}

impl BonusPool {
    /// The cursor points into the buffer, and no more entries are counted
    /// than the buffer has.
    pub open spec fn wf(self) -> bool {
        &&& self.current_position < MAX_LAST_TEN_INVESTORS
        &&& self.investor_count <= MAX_LAST_TEN_INVESTORS
    }

    /// Whether the record is well formed.
    pub fn is_well_formed(&self) -> (r: bool)
        ensures
            r == self.wf(),
    {
        (self.current_position as usize) < MAX_LAST_TEN_INVESTORS && (self.investor_count as usize)
            <= MAX_LAST_TEN_INVESTORS
    }
}

/// The referral pool: fees of stakers without a referrer, distributed once
/// per period.
#[derive(Debug, Clone, Copy, PartialEq, Eq)]
pub struct ReferralPool {
    /// The pool this referral pool belongs to.
    pub staking_pool: Identity,
    /// What the referral pool holds.
    pub balance: u64,
    /// When the next distribution is due.
    pub next_distribution_timestamp: i64,
    /// When the pool was last distributed.
    pub last_distribution_timestamp: i64,
    /// What the pool has handed to the stakers so far.
    pub total_distributed: u64,
    /// The bump of the record's address.
    pub bump: u8,
}

/// What is known of one referrer.
#[derive(Debug, Clone, Copy, PartialEq, Eq)]
pub struct ReferrerAccount {
    /// The referrer.
    pub referrer: Identity,
    /// How many stakers they referred.
    pub referral_count: u32,
    /// What they earned from referrals.
    pub total_earned: u64,
    /// When they first referred somebody.
    pub created_at: i64,
    /// The bump of the record's address.
    pub bump: u8,
}

} // verus!
