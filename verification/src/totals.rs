//! The pool's total and the positions it is made of: whatever the stakers
//! do, the total staked stays the sum of what their positions hold.

use vstd::prelude::*;
use crate::claim_rewards::ClaimRewards;
use crate::stake::Stake;
use crate::state::{StakingPool, UserStakeState};
use crate::unstake::Unstake;

verus! {

/// What a sequence of positions holds, all together.
pub open spec fn staked_sum(positions: Seq<UserStakeState>) -> int
    decreases positions.len(),
{
    if positions.len() == 0 {
        0
    } else {
        staked_sum(positions.drop_last()) + positions.last().staked_amount
    }
}

/// Whether the pool's total is the sum of what the positions hold.
pub open spec fn pool_matches(pool: StakingPool, positions: Seq<UserStakeState>) -> bool {
    pool.total_staked == staked_sum(positions)
}

/// A new position adds what it holds to the sum.
pub proof fn lemma_staked_sum_push(positions: Seq<UserStakeState>, position: UserStakeState)
    ensures
        staked_sum(positions.push(position)) == staked_sum(positions) + position.staked_amount,
{
    assert(positions.push(position).drop_last() =~= positions);
}

/// A changed position changes the sum by as much as it changed itself.
pub proof fn lemma_staked_sum_update(
    positions: Seq<UserStakeState>,
    i: int,
    position: UserStakeState,
)
    requires
        0 <= i < positions.len(),
    ensures
        staked_sum(positions.update(i, position)) == staked_sum(positions)
            - positions[i].staked_amount + position.staked_amount,
    decreases positions.len(),
{
    let updated = positions.update(i, position);
    if i == positions.len() - 1 {
        assert(updated.drop_last() =~= positions.drop_last());
    } else {
        assert(updated.drop_last() =~= positions.drop_last().update(i, position));
        lemma_staked_sum_update(positions.drop_last(), i, position);
    }
}

/// A stake into one of the positions of a pool keeps the pool's total the
/// sum of its positions.
pub proof fn lemma_stake_keeps_pool_total(
    positions: Seq<UserStakeState>,
    i: int,
    ctx: Stake,
    gross_amount: u64,
    current_timestamp: i64,
)
    requires
        0 <= i < positions.len(),
        positions[i] == ctx.user_stake,
        pool_matches(ctx.staking_pool, positions),
        ctx.stake_failure(gross_amount) is None,
        ctx.first_stake() ==> ctx.user_stake.staked_amount == 0,
    ensures
        pool_matches(
            ctx.staked(gross_amount, current_timestamp).staking_pool,
            positions.update(i, ctx.staked(gross_amount, current_timestamp).user_stake),
        ),
{
    lemma_staked_sum_update(
        positions,
        i,
        ctx.staked(gross_amount, current_timestamp).user_stake,
    );
}

/// A first stake, whose position joins those of the pool, keeps the pool's
/// total the sum of its positions.
pub proof fn lemma_first_stake_keeps_pool_total(
    positions: Seq<UserStakeState>,
    ctx: Stake,
    gross_amount: u64,
    current_timestamp: i64,
)
    requires
        pool_matches(ctx.staking_pool, positions),
        ctx.stake_failure(gross_amount) is None,
        ctx.first_stake(),
    ensures
        pool_matches(
            ctx.staked(gross_amount, current_timestamp).staking_pool,
            positions.push(ctx.staked(gross_amount, current_timestamp).user_stake),
        ),
{
    lemma_staked_sum_push(positions, ctx.staked(gross_amount, current_timestamp).user_stake);
}

/// An unstake from one of the positions of a pool keeps the pool's total
/// the sum of its positions.
pub proof fn lemma_unstake_keeps_pool_total(
    positions: Seq<UserStakeState>,
    i: int,
    ctx: Unstake,
    gross_unstake_amount: u64,
    current_timestamp: i64,
)
    requires
        0 <= i < positions.len(),
        positions[i] == ctx.user_stake,
        pool_matches(ctx.staking_pool, positions),
        ctx.unstake_failure(gross_unstake_amount) is None,
    ensures
        pool_matches(
            ctx.unstaked(gross_unstake_amount, current_timestamp).staking_pool,
            positions.update(i, ctx.unstaked(gross_unstake_amount, current_timestamp).user_stake),
        ),
{
    lemma_staked_sum_update(
        positions,
        i,
        ctx.unstaked(gross_unstake_amount, current_timestamp).user_stake,
    );
}

/// A claim moves no stake: the pool's total stays the sum of its positions.
pub proof fn lemma_claim_keeps_pool_total(
    positions: Seq<UserStakeState>,
    i: int,
    ctx: ClaimRewards,
    current_timestamp: i64,
)
    requires
        0 <= i < positions.len(),
        positions[i] == ctx.user_stake,
        pool_matches(ctx.staking_pool, positions),
    ensures
        pool_matches(
            ctx.claimed(current_timestamp).staking_pool,
            positions.update(i, ctx.claimed(current_timestamp).user_stake),
        ),
{
    lemma_staked_sum_update(positions, i, ctx.claimed(current_timestamp).user_stake);
}

} // verus!
