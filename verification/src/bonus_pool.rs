//! Distribution of the bonus pool: 40% to the last investors in proportion
//! to what they staked, 40% to all stakers, and the rest carried forward.

use vstd::prelude::*;
use crate::constants::{BONUS_INACTIVITY_THRESHOLD, BONUS_INITIAL_COUNTDOWN};
use crate::errors::StakingError;
use crate::events::BonusPoolExpired;
use crate::helpers::{
    bonus_distribution_due, bonus_split, calculate_bonus_distribution, check_bonus_expiry,
    check_inactivity_trigger, reward_per_share_after, update_reward_per_share,
};
use crate::identity::Identity;
use crate::math::{
    calculate_pro_rata_share, lemma_share_within_total, pro_rata_share, safe_add, safe_sub,
};
use crate::state::{BonusPool, LastTenInvestor, StakingPool};

verus! {

/// The records a distribution of the bonus pool works on.
#[derive(Debug, Clone, Copy, PartialEq, Eq)]
pub struct DistributeBonusPool {
    /// The pool.
    pub staking_pool: StakingPool,
    /// The bonus pool.
    pub bonus_pool: BonusPool,
}

/// What one of the last investors receives from a distribution.
#[derive(Debug, Clone, Copy, PartialEq, Eq)]
pub struct BonusPayout {
    /// Who receives it.
    pub investor: Identity,
    /// How much: their pro-rata share, which is more than zero.
    pub share: u64,
}

/// What a distribution of the bonus pool did: the amounts to move, and the
/// event to report.
#[derive(Debug, PartialEq, Eq)]
pub struct BonusDistribution {
    /// The distribution, with its three parts and the new expiry.
    pub expired: BonusPoolExpired,
    /// What goes from the bonus pool to the staking pool's vault: the
    /// stakers' share, or nothing where nobody has staked.
    pub moved_to_stakers: u64,
    /// What each of the last investors receives, in buffer order. An entry
    /// whose share is zero is left out; one investor may occur twice.
    pub payouts: Vec<BonusPayout>,
}

/// The sum of the amounts of the first `n` entries.
pub open spec fn invested_total(entries: Seq<LastTenInvestor>, n: int) -> int
    decreases n,
{
    if n <= 0 {
        0
    } else {
        invested_total(entries, n - 1) + entries[n - 1].amount
    }
}

/// The payouts of the first `n` entries, in their order, where
/// `to_distribute` is divided in proportion to the entries' amounts out of
/// `total_invested`. Entries whose share is zero get none.
pub open spec fn payouts_of(
    entries: Seq<LastTenInvestor>,
    n: int,
    total_invested: int,
    to_distribute: int,
) -> Seq<BonusPayout>
    decreases n,
{
    if n <= 0 {
        Seq::empty()
    } else {
        let earlier = payouts_of(entries, n - 1, total_invested, to_distribute);
        let share = pro_rata_share(entries[n - 1].amount as int, total_invested, to_distribute);
        if share > 0 {
            earlier.push(BonusPayout { investor: entries[n - 1].investor, share: share as u64 })
        } else {
            earlier
        }
    }
}

/// The sum of the shares of a sequence of payouts.
pub open spec fn payouts_total(payouts: Seq<BonusPayout>) -> int
    decreases payouts.len(),
{
    if payouts.len() == 0 {
        0
    } else {
        payouts_total(payouts.drop_last()) + payouts.last().share
    }
}

impl DistributeBonusPool {
    /// What the filled entries of the buffer staked, all together.
    pub open spec fn total_invested(self) -> int {
        invested_total(self.bonus_pool.last_ten_investors@, self.bonus_pool.investor_count as int)
    }

    /// What each of the last investors receives.
    pub open spec fn payouts(self) -> Seq<BonusPayout> {
        payouts_of(
            self.bonus_pool.last_ten_investors@,
            self.bonus_pool.investor_count as int,
            self.total_invested(),
            bonus_split(self.bonus_pool.balance).0 as int,
        )
    }

    /// The pool's reward per share once the stakers' share is credited.
    pub open spec fn reward_per_share_next(self) -> int {
        reward_per_share_after(self.staking_pool, bonus_split(self.bonus_pool.balance).1)
    }

    /// Why a distribution at `current_timestamp` is refused, or `None` where
    /// it goes through. The first reason that applies is the one reported.
    pub open spec fn distribution_failure(self, current_timestamp: i64) -> Option<StakingError> {
        if !bonus_distribution_due(self.bonus_pool, current_timestamp) {
            Some(StakingError::BonusNotExpired)
        } else if self.bonus_pool.balance == 0 {
            Some(StakingError::BonusPoolEmpty)
        } else if (bonus_split(self.bonus_pool.balance).0 > 0 && self.bonus_pool.investor_count > 0
            && self.total_invested() > u64::MAX) || self.reward_per_share_next() > u128::MAX
            || current_timestamp + BONUS_INITIAL_COUNTDOWN > i64::MAX {
            Some(StakingError::MathOverflow)
        } else {
            None
        }
    }

    /// The records after a distribution that goes through: the bonus pool
    /// keeps the carry and nothing else, its countdown starts afresh from
    /// `current_timestamp`, and the stakers' share is credited to the pool's
    /// reward per share. The buffer stays as it is.
    pub open spec fn distributed(self, current_timestamp: i64) -> DistributeBonusPool {
        DistributeBonusPool {
            staking_pool: StakingPool {
                reward_per_share: self.reward_per_share_next() as u128,
                ..self.staking_pool
            },
            bonus_pool: BonusPool {
                balance: bonus_split(self.bonus_pool.balance).2,
                expiry_timestamp: (current_timestamp + BONUS_INITIAL_COUNTDOWN) as i64,
                last_investment_timestamp: current_timestamp,
                ..self.bonus_pool
            },
        }
    }

    /// The event of a distribution that goes through.
    pub open spec fn expired_event(self, current_timestamp: i64) -> BonusPoolExpired {
        let (to_last_ten, to_all_stakers, carried_forward) = bonus_split(self.bonus_pool.balance);
        BonusPoolExpired {
            total_distributed: (to_last_ten + to_all_stakers) as u64,
            to_last_ten,
            to_all_stakers,
            carried_forward,
            last_ten_count: self.bonus_pool.investor_count,
            countdown_reset_to: (current_timestamp + BONUS_INITIAL_COUNTDOWN) as i64,
            timestamp: current_timestamp,
        }
    }

    /// What goes to the staking pool's vault: the stakers' share, unless
    /// nobody has staked.
    pub open spec fn moved_to_stakers(self) -> u64 {
        if self.staking_pool.total_staked > 0 {
            bonus_split(self.bonus_pool.balance).1
        } else {
            0
        }
    }
}

/// Distributes the bonus pool at `current_timestamp`. Anyone may ask for it.
///
/// The balance is split 40/40/20. The first share is divided between the
/// filled entries of the last-ten buffer in proportion to their amounts; the
/// second is credited to all stakers through the reward per share; the rest
/// stays in the bonus pool. The three parts sum to the balance exactly, and
/// the countdown starts afresh.
///
/// The distribution is refused with `BonusNotExpired` while the countdown
/// runs and somebody has staked within six hours, with `BonusPoolEmpty` where
/// the pool holds nothing, and with `MathOverflow` where a figure overflows.
/// A refused distribution changes nothing.
#[verifier::loop_isolation(false)]
pub fn distribute_bonus_pool_handler(
    ctx: &mut DistributeBonusPool,
    current_timestamp: i64,
) -> (r: Result<BonusDistribution, StakingError>)
    requires
        old(ctx).bonus_pool.wf(),
    ensures
        match r {
            Ok(receipt) => {
                &&& old(ctx).distribution_failure(current_timestamp) is None
                &&& *final(ctx) == old(ctx).distributed(current_timestamp)
                &&& receipt.expired == old(ctx).expired_event(current_timestamp)
                &&& receipt.moved_to_stakers == old(ctx).moved_to_stakers()
                &&& receipt.payouts@ == old(ctx).payouts()
                &&& receipt.expired.to_last_ten + receipt.expired.to_all_stakers
                    + receipt.expired.carried_forward == old(ctx).bonus_pool.balance
                &&& final(ctx).bonus_pool.balance == receipt.expired.carried_forward
            },
            Err(e) => {
                &&& old(ctx).distribution_failure(current_timestamp) == Some(e)
                &&& *final(ctx) == *old(ctx)
            },
        },
        final(ctx).bonus_pool.wf(),
        final(ctx).staking_pool.reward_per_share >= old(ctx).staking_pool.reward_per_share,
{
    let mut staking_pool = ctx.staking_pool;
    let mut bonus_pool = ctx.bonus_pool;

    let countdown_expired = check_bonus_expiry(&bonus_pool, current_timestamp);
    let inactivity_trigger = check_inactivity_trigger(&bonus_pool, current_timestamp);
    if !(countdown_expired || inactivity_trigger) {
        return Err(StakingError::BonusNotExpired);
    }
    if bonus_pool.balance == 0 {
        return Err(StakingError::BonusPoolEmpty);
    }
    let total_to_distribute = bonus_pool.balance;
    let (to_last_ten, to_all_stakers, carry_forward) = calculate_bonus_distribution(
        total_to_distribute,
    )?;

    let ghost entries = bonus_pool.last_ten_investors@;
    let count = bonus_pool.investor_count as usize;
    let mut payouts: Vec<BonusPayout> = Vec::new();
    let mut total_invested: u64 = 0;
    if to_last_ten > 0 && count > 0 {
        let mut i: usize = 0;
        while i < count
            invariant
                i <= count,
                total_invested == invested_total(entries, i as int),
            decreases count - i,
        {
            match safe_add(total_invested, bonus_pool.last_ten_investors[i].amount) {
                Ok(sum) => {
                    total_invested = sum;
                },
                Err(e) => {
                    proof {
                        lemma_invested_total_grows(entries, i as int + 1, count as int);
                    }
                    return Err(e);
                },
            }
            i += 1;
        }
    }
    proof {
        if !(to_last_ten > 0 && count > 0) {
            lemma_nothing_to_divide(entries, count as int, to_last_ten as int);
        }
    }
    let ghost invested = invested_total(entries, count as int);
    if total_invested > 0 {
        let mut i: usize = 0;
        while i < count
            invariant
                i <= count,
                payouts@ == payouts_of(entries, i as int, invested, to_last_ten as int),
            decreases count - i,
        {
            let investor = bonus_pool.last_ten_investors[i];
            proof {
                lemma_entry_within_total(entries, i as int, count as int);
                lemma_share_within_total(
                    investor.amount as int,
                    total_invested as int,
                    to_last_ten as int,
                );
            }
            if investor.amount > 0 {
                let share = calculate_pro_rata_share(investor.amount, total_invested, to_last_ten)?;
                if share > 0 {
                    payouts.push(BonusPayout { investor: investor.investor, share });
                }
            } else {
                assert(pro_rata_share(0, invested, to_last_ten as int) == 0) by (nonlinear_arith)
                    requires
                        invested > 0,
                ;
            }
            i += 1;
        }
    } else {
        proof {
            lemma_no_payout_without_investment(entries, count as int, to_last_ten as int);
        }
    }

    if to_all_stakers > 0 && staking_pool.total_staked > 0 {
        update_reward_per_share(&mut staking_pool, to_all_stakers)?;
    }
    let moved_to_stakers = if staking_pool.total_staked > 0 {
        to_all_stakers
    } else {
        0
    };

    let total_distributed = safe_add(to_last_ten, to_all_stakers)?;
    bonus_pool.balance = safe_sub(bonus_pool.balance, total_distributed)?;
    if bonus_pool.balance != carry_forward {
        return Err(StakingError::InvalidCalculation);
    }
    bonus_pool.expiry_timestamp = match current_timestamp.checked_add(BONUS_INITIAL_COUNTDOWN) {
        Some(expiry) => expiry,
        None => {
            return Err(StakingError::MathOverflow);
        },
    };
    bonus_pool.last_investment_timestamp = current_timestamp;

    ctx.staking_pool = staking_pool;
    ctx.bonus_pool = bonus_pool;

    Ok(
        BonusDistribution {
            expired: BonusPoolExpired {
                total_distributed,
                to_last_ten,
                to_all_stakers,
                carried_forward: carry_forward,
                last_ten_count: bonus_pool.investor_count,
                countdown_reset_to: bonus_pool.expiry_timestamp,
                timestamp: current_timestamp,
            },
            moved_to_stakers,
            payouts,
        },
    )
}

/// A distribution that went through is not repeated: from its moment on and
/// for the six hours that follow, every further attempt is refused with
/// `BonusNotExpired` and changes nothing. Of two callers who ask at the same
/// instant, the first distributes the balance and the second is turned away.
pub proof fn lemma_bonus_distributed_once(ctx: DistributeBonusPool, first: i64, second: i64)
    requires
        ctx.distribution_failure(first) is None,
        first <= second,
        second - first < BONUS_INACTIVITY_THRESHOLD,
    ensures
        ctx.distributed(first).distribution_failure(second) == Some(StakingError::BonusNotExpired),
{
}

/// The three parts of a distribution sum to the balance, whatever it is:
/// nothing leaks and nothing is made up.
pub proof fn lemma_bonus_split_exact(balance: u64)
    ensures
        bonus_split(balance).0 + bonus_split(balance).1 + bonus_split(balance).2 == balance,
        bonus_split(balance).0 == bonus_split(balance).1,
        bonus_split(balance).0 == balance as int * 4000 / 10000,
{
    crate::fees::lemma_bps_share_bounds(balance as int, 4000);
}

/// The last investors are never paid more than their share of the pool: the
/// payouts of a distribution sum to at most 40% of the balance.
pub proof fn lemma_payouts_within_share(ctx: DistributeBonusPool)
    requires
        ctx.bonus_pool.wf(),
    ensures
        0 <= payouts_total(ctx.payouts()) <= bonus_split(ctx.bonus_pool.balance).0,
{
    let entries = ctx.bonus_pool.last_ten_investors@;
    let n = ctx.bonus_pool.investor_count as int;
    let invested = ctx.total_invested();
    let share = bonus_split(ctx.bonus_pool.balance).0 as int;
    lemma_invested_total_grows(entries, 0, n);
    if invested == 0 {
        lemma_no_payout_without_investment(entries, n, share);
    } else {
        lemma_payouts_bounded(entries, n, n, share);
        assert(payouts_total(ctx.payouts()) <= share) by (nonlinear_arith)
            requires
                payouts_total(ctx.payouts()) * invested <= invested * share,
                invested > 0,
        ;
    }
}

/// The payouts of the first `n` of `count` entries, times what all `count`
/// invested, are at most what the first `n` invested times what is divided.
proof fn lemma_payouts_bounded(
    entries: Seq<LastTenInvestor>,
    n: int,
    count: int,
    to_distribute: int,
)
    requires
        0 <= n <= count <= entries.len(),
        0 <= to_distribute <= u64::MAX,
        invested_total(entries, count) > 0,
    ensures
        0 <= payouts_total(
            payouts_of(entries, n, invested_total(entries, count), to_distribute),
        ),
        payouts_total(payouts_of(entries, n, invested_total(entries, count), to_distribute))
            * invested_total(entries, count) <= invested_total(entries, n) * to_distribute,
    decreases n,
{
    let invested = invested_total(entries, count);
    if n > 0 {
        lemma_payouts_bounded(entries, n - 1, count, to_distribute);
        lemma_entry_within_total(entries, n - 1, count);
        let earlier = payouts_of(entries, n - 1, invested, to_distribute);
        let amount = entries[n - 1].amount as int;
        let share = pro_rata_share(amount, invested, to_distribute);
        lemma_share_within_total(amount, invested, to_distribute);
        assert(share * invested <= amount * to_distribute) by (nonlinear_arith)
            requires
                invested > 0,
                share == amount * to_distribute / invested,
        ;
        let paid = payouts_total(earlier);
        if share > 0 {
            let payout = BonusPayout { investor: entries[n - 1].investor, share: share as u64 };
            assert(earlier.push(payout).drop_last() =~= earlier);
        }
        assert((paid + share) * invested <= (invested_total(entries, n - 1) + amount)
            * to_distribute) by (nonlinear_arith)
            requires
                paid * invested <= invested_total(entries, n - 1) * to_distribute,
                share * invested <= amount * to_distribute,
        ;
    }
}

/// The sum over more entries is no smaller.
pub proof fn lemma_invested_total_grows(entries: Seq<LastTenInvestor>, m: int, n: int)
    requires
        0 <= m <= n,
    ensures
        0 <= invested_total(entries, m) <= invested_total(entries, n),
    decreases n,
{
    if m < n {
        lemma_invested_total_grows(entries, m, n - 1);
    } else if n > 0 {
        lemma_invested_total_grows(entries, m - 1, n - 1);
    }
}

/// The amount of one entry is part of the sum that counts it.
pub proof fn lemma_entry_within_total(entries: Seq<LastTenInvestor>, i: int, n: int)
    requires
        0 <= i < n,
    ensures
        entries[i].amount <= invested_total(entries, n),
{
    lemma_invested_total_grows(entries, i, i + 1);
    lemma_invested_total_grows(entries, i + 1, n);
}

/// Where nothing was invested, nobody is paid.
pub proof fn lemma_no_payout_without_investment(
    entries: Seq<LastTenInvestor>,
    n: int,
    to_distribute: int,
)
    ensures
        payouts_of(entries, n, 0, to_distribute) == Seq::<BonusPayout>::empty(),
    decreases n,
{
    if n > 0 {
        lemma_no_payout_without_investment(entries, n - 1, to_distribute);
    }
}

/// Where there is nothing to divide, or nobody to divide it between, nobody
/// is paid, whatever was invested.
pub proof fn lemma_nothing_to_divide(entries: Seq<LastTenInvestor>, n: int, to_distribute: int)
    requires
        to_distribute == 0 || n <= 0,
    ensures
        forall|total_invested: int|
            payouts_of(entries, n, total_invested, to_distribute) == Seq::<BonusPayout>::empty(),
    decreases n,
{
    assert forall|total_invested: int|
        payouts_of(entries, n, total_invested, to_distribute) == Seq::<BonusPayout>::empty() by {
        lemma_nothing_to_divide_of(entries, n, total_invested, to_distribute);
    }
}

proof fn lemma_nothing_to_divide_of(
    entries: Seq<LastTenInvestor>,
    n: int,
    total_invested: int,
    to_distribute: int,
)
    requires
        to_distribute == 0 || n <= 0,
    ensures
        payouts_of(entries, n, total_invested, to_distribute) == Seq::<BonusPayout>::empty(),
    decreases n,
{
    if n > 0 {
        lemma_nothing_to_divide_of(entries, n - 1, total_invested, to_distribute);
        if total_invested != 0 {
            assert(0int / total_invested == 0) by (nonlinear_arith)
                requires
                    total_invested != 0,
            ;
        }
    }
}

} // verus!
