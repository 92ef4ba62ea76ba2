use vstd::prelude::*;
use crate::errors::LedgerError;
use crate::ops::{claim_spec, stake_spec, unstake_spec, LedgerUpdate};
use crate::state::{StakingAccount, UserStakingInfo};

verus! {

/// Sum of the staked amounts over a pool's positions.
pub open spec fn total_of(positions: Seq<UserStakingInfo>) -> int
    decreases positions.len(),
{
    if positions.len() == 0 {
        0
    } else {
        positions[0].amount_staked + total_of(positions.skip(1))
    }
}

/// Appending a position adds exactly its staked amount to the sum.
pub proof fn lemma_total_of_push(positions: Seq<UserStakingInfo>, p: UserStakingInfo)
    ensures
        total_of(positions.push(p)) == total_of(positions) + p.amount_staked,
    decreases positions.len(),
{
    if positions.len() == 0 {
        assert(positions.push(p).skip(1) =~= Seq::<UserStakingInfo>::empty());
        assert(total_of(Seq::<UserStakingInfo>::empty()) == 0);
        assert(positions.push(p)[0] == p);
    } else {
        assert(positions.push(p).skip(1) =~= positions.skip(1).push(p));
        lemma_total_of_push(positions.skip(1), p);
    }
}

/// Law: a freshly provisioned position holds nothing, so admitting a new
/// depositor preserves the pool-total invariant; together with a new pool's
/// `total_staked == 0` over no positions, this grounds the invariant that
/// the transition laws below carry from state to state.
pub proof fn lemma_empty_position_preserves_total(
    pool: StakingAccount,
    positions: Seq<UserStakingInfo>,
    p: UserStakingInfo,
)
    requires
        pool.total_staked == total_of(positions),
        p.amount_staked == 0,
    ensures
        pool.total_staked == total_of(positions.push(p)),
{
    lemma_total_of_push(positions, p);
}

/// Replacing one position changes the sum by the difference at that index.
pub proof fn lemma_total_of_update(positions: Seq<UserStakingInfo>, i: int, p: UserStakingInfo)
    requires
        0 <= i < positions.len(),
    ensures
        total_of(positions.update(i, p)) == total_of(positions) - positions[i].amount_staked
            + p.amount_staked,
    decreases positions.len(),
{
    let updated = positions.update(i, p);
    if i == 0 {
        assert(updated.skip(1) =~= positions.skip(1));
    } else {
        assert(updated.skip(1) =~= positions.skip(1).update(i - 1, p));
        lemma_total_of_update(positions.skip(1), i - 1, p);
    }
}

/// Law: a stake that succeeds keeps the pool's total equal to the sum of the
/// staked amounts over all of the pool's positions.
pub proof fn lemma_stake_preserves_total(
    pool: StakingAccount,
    positions: Seq<UserStakingInfo>,
    i: int,
    amount: u64,
)
    requires
        0 <= i < positions.len(),
        pool.total_staked == total_of(positions),
        stake_spec(pool, positions[i], amount) is Ok,
    ensures
        stake_spec(pool, positions[i], amount) matches Ok(u) ==> u.pool.total_staked == total_of(
            positions.update(i, u.position),
        ),
{
    let u = stake_spec(pool, positions[i], amount)->Ok_0;
    lemma_total_of_update(positions, i, u.position);
}

/// Law: an unstake that succeeds keeps the pool's total equal to the sum of
/// the staked amounts over all of the pool's positions.
pub proof fn lemma_unstake_preserves_total(
    pool: StakingAccount,
    positions: Seq<UserStakingInfo>,
    i: int,
    amount: u64,
)
    requires
        0 <= i < positions.len(),
        pool.total_staked == total_of(positions),
        unstake_spec(pool, positions[i], amount) is Ok,
    ensures
        unstake_spec(pool, positions[i], amount) matches Ok(u) ==> u.pool.total_staked == total_of(
            positions.update(i, u.position),
        ),
{
    let u = unstake_spec(pool, positions[i], amount)->Ok_0;
    lemma_total_of_update(positions, i, u.position);
}

/// Law: a claim moves no stake, so it too keeps the pool's total equal to
/// the sum of the staked amounts over all of the pool's positions.
pub proof fn lemma_claim_preserves_total(
    pool: StakingAccount,
    positions: Seq<UserStakingInfo>,
    i: int,
    now: i64,
)
    requires
        0 <= i < positions.len(),
        pool.total_staked == total_of(positions),
        claim_spec(pool, positions[i], now) is Ok,
    ensures
        claim_spec(pool, positions[i], now) matches Ok(u) ==> u.pool.total_staked == total_of(
            positions.update(i, u.position),
        ),
{
    let u = claim_spec(pool, positions[i], now)->Ok_0;
    lemma_total_of_update(positions, i, u.position);
}

/// Law: a second claim at the very timestamp of a successful claim fails
/// deterministically with `InvalidArgument` — twice at one instant is an
/// error, not a zero payout.
pub proof fn lemma_claim_twice_same_instant(
    pool: StakingAccount,
    position: UserStakingInfo,
    now: i64,
)
    requires
        claim_spec(pool, position, now) is Ok,
    ensures
        claim_spec(pool, position, now) matches Ok(u) ==> claim_spec(u.pool, u.position, now)
            == Err::<LedgerUpdate, LedgerError>(LedgerError::InvalidArgument),
{
}

/// Law: unstaking exactly what was just staked restores both records — every
/// field of the pool and of the position — to their pre-stake values.
pub proof fn lemma_stake_unstake_round_trip(
    pool: StakingAccount,
    position: UserStakingInfo,
    amount: u64,
)
    requires
        stake_spec(pool, position, amount) is Ok,
    ensures
        stake_spec(pool, position, amount) matches Ok(u) ==> {
            &&& unstake_spec(u.pool, u.position, amount) is Ok
            &&& unstake_spec(u.pool, u.position, amount) matches Ok(v) ==> v.pool == pool
                && v.position == position
        },
{
}

} // verus!
