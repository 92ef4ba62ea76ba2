use vstd::prelude::*;

verus! {

/// Aggregate state of one staking pool, shared by all of its depositors.
///
/// Invariant (`wf`): `total_staked` never exceeds `staking_cap`, and the two
/// percentages stay in `0..=100`. `initialize` establishes it and every
/// operation preserves it.
#[derive(Clone, Copy, Debug, PartialEq, Eq, Structural)]
pub struct StakingAccount {
    /// Sum of `amount_staked` over every position of this pool.
    pub total_staked: u64,
    /// Annual percentage yield, e.g. 7 for 7%.
    pub apy: u8,
    /// Commission retained from each raw reward, e.g. 5 for 5%.
    pub commission: u8,
    /// Lock-up period in seconds (reserved; not consulted by the transitions).
    pub lock_up_period: i64,
    /// Smallest amount a single stake may add.
    pub minimum_stake: u64,
    /// Timestamp at which staking opened.
    pub staking_start_time: i64,
    /// Largest `total_staked` the pool accepts.
    pub staking_cap: u64,
    /// Cumulative rewards paid out by this pool to date.
    pub total_rewards: u64,
}

impl StakingAccount {
    /// The pool's data-model invariant.
    pub open spec fn wf(self) -> bool {
        &&& self.apy <= 100
        &&& self.commission <= 100
        &&& self.total_staked <= self.staking_cap
    }
}

/// Per-depositor staking state. One record per depositor of a pool; mutated
/// only through the ledger operations.
#[derive(Clone, Copy, Debug, PartialEq, Eq, Structural)]
pub struct UserStakingInfo {
    /// Identity of the depositor that owns this position, as an opaque
    /// account identifier assigned by the host.
    pub user: u64,
    /// Amount this depositor currently has staked.
    pub amount_staked: u64,
    /// Timestamp of the most recent successful reward claim.
    pub last_reward_claim: i64,
    /// Timestamp at which this depositor first staked.
    pub staking_start_time: i64,
    /// Cumulative rewards paid out to this depositor to date.
    pub rewards_accrued: u64,
    /// Timestamp at which an unstake cooldown began (reserved; not consulted
    /// by the transitions).
    pub unstaking_start_time: i64,
}

impl UserStakingInfo {
    /// A fresh position for `user`, provisioned at time `now` with nothing
    /// staked and no rewards accrued.
    pub fn new(user: u64, now: i64) -> (p: UserStakingInfo)
        ensures
            p == (UserStakingInfo {
                user,
                amount_staked: 0,
                last_reward_claim: now,
                staking_start_time: now,
                rewards_accrued: 0,
                unstaking_start_time: 0,
            }),
    {
        UserStakingInfo {
            user,
            amount_staked: 0,
            last_reward_claim: now,
            staking_start_time: now,
            rewards_accrued: 0,
            unstaking_start_time: 0,
        }
    }
}

} // verus!
