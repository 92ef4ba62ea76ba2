use vstd::prelude::*;
use vstd::arithmetic::div_mod::{lemma_div_is_ordered, lemma_div_multiples_vanish};
use vstd::arithmetic::mul::lemma_mul_upper_bound;
use crate::errors::LedgerError;
use crate::state::{StakingAccount, UserStakingInfo};

verus! {

/// Which way the host must move currency to realise an update.
#[derive(Clone, Copy, Debug, PartialEq, Eq, Structural)]
pub enum TransferDirection {
    /// From the depositor's external balance into the pool's balance.
    DepositorToPool,
    /// From the pool's balance to the depositor's external balance.
    PoolToDepositor,
}

/// The one atomic currency movement an operation asks of the host.
#[derive(Clone, Copy, Debug, PartialEq, Eq, Structural)]
pub struct TransferAction {
    pub direction: TransferDirection,
    pub amount: u64,
}

/// A validated, fully computed outcome of one ledger operation: the records
/// as they must read afterwards, and the transfer that pays for them. The
/// host performs the transfer and then commits or abandons the records as a
/// whole, so a failed transfer never leaves a ledger update applied.
#[derive(Clone, Copy, Debug, PartialEq, Eq, Structural)]
pub struct LedgerUpdate {
    pub pool: StakingAccount,
    pub position: UserStakingInfo,
    pub transfer: TransferAction,
}

/// Scale factor of the reward formula: 100 (APY is a percentage) times 365
/// (the rate is annual) times 86,400 (elapsed time is in seconds, the rate
/// in days) times 100 (the commission is a percentage).
pub const REWARD_RATE_DENOMINATOR: u128 = 315_360_000_000;

/// What `initialize` returns: a fresh pool with nothing staked and nothing
/// paid out, or `InvalidArgument` when a percentage exceeds 100.
pub open spec fn initialize_spec(
    apy: u8,
    commission: u8,
    lock_up_period: i64,
    minimum_stake: u64,
    staking_start_time: i64,
    staking_cap: u64,
) -> Result<StakingAccount, LedgerError> {
    if apy > 100 || commission > 100 {
        Err(LedgerError::InvalidArgument)
    } else {
        Ok(
            StakingAccount {
                total_staked: 0,
                apy,
                commission,
                lock_up_period,
                minimum_stake,
                staking_start_time,
                staking_cap,
                total_rewards: 0,
            },
        )
    }
}

/// What `stake` returns for every pool, position and amount.
pub open spec fn stake_spec(
    pool: StakingAccount,
    position: UserStakingInfo,
    amount: u64,
) -> Result<LedgerUpdate, LedgerError> {
    if amount == 0 || amount < pool.minimum_stake {
        Err(LedgerError::InvalidArgument)
    } else if pool.total_staked + amount > u64::MAX {
        Err(LedgerError::Overflow)
    } else if pool.total_staked + amount > pool.staking_cap {
        Err(LedgerError::InvalidArgument)
    } else if position.amount_staked + amount > u64::MAX {
        Err(LedgerError::Overflow)
    } else {
        Ok(
            LedgerUpdate {
                pool: StakingAccount { total_staked: (pool.total_staked + amount) as u64, ..pool },
                position: UserStakingInfo {
                    amount_staked: (position.amount_staked + amount) as u64,
                    ..position
                },
                transfer: TransferAction { direction: TransferDirection::DepositorToPool, amount },
            },
        )
    }
}

/// What `unstake` returns for every pool, position and amount.
pub open spec fn unstake_spec(
    pool: StakingAccount,
    position: UserStakingInfo,
    amount: u64,
) -> Result<LedgerUpdate, LedgerError> {
    if amount > position.amount_staked {
        Err(LedgerError::InsufficientFunds)
    } else if amount > pool.total_staked {
        Err(LedgerError::Underflow)
    } else {
        Ok(
            LedgerUpdate {
                pool: StakingAccount { total_staked: (pool.total_staked - amount) as u64, ..pool },
                position: UserStakingInfo {
                    amount_staked: (position.amount_staked - amount) as u64,
                    ..position
                },
                transfer: TransferAction { direction: TransferDirection::PoolToDepositor, amount },
            },
        )
    }
}

/// The reward owed for `elapsed` seconds on `amount_staked` units: the stake
/// times APY/100, prorated over 365 days of 86,400 seconds, minus the
/// commission percentage, floored once to a whole currency amount.
pub open spec fn reward_of(amount_staked: u64, apy: u8, commission: u8, elapsed: int) -> int
    recommends
        commission <= 100,
{
    (amount_staked * apy * (100 - commission) * elapsed) / (REWARD_RATE_DENOMINATOR as int)
}

/// When a claim at time `now` would push some counter past its range: the
/// elapsed seconds past `i64`, the reward itself past `u64`, or either
/// cumulative reward counter past `u64`.
pub open spec fn claim_overflows(
    pool: StakingAccount,
    position: UserStakingInfo,
    now: i64,
) -> bool {
    let elapsed = now - position.last_reward_claim;
    let reward = reward_of(position.amount_staked, pool.apy, pool.commission, elapsed);
    ||| elapsed > i64::MAX
    ||| reward > u64::MAX
    ||| position.rewards_accrued + reward > u64::MAX
    ||| pool.total_rewards + reward > u64::MAX
}

/// What `claim_rewards` returns for every pool, position and time. A claim
/// whose elapsed time is not positive is an error, not a zero payout.
pub open spec fn claim_spec(
    pool: StakingAccount,
    position: UserStakingInfo,
    now: i64,
) -> Result<LedgerUpdate, LedgerError>
    recommends
        pool.wf(),
{
    if now <= position.last_reward_claim {
        Err(LedgerError::InvalidArgument)
    } else if claim_overflows(pool, position, now) {
        Err(LedgerError::Overflow)
    } else {
        let elapsed = now - position.last_reward_claim;
        let reward = reward_of(position.amount_staked, pool.apy, pool.commission, elapsed) as u64;
        Ok(
            LedgerUpdate {
                pool: StakingAccount { total_rewards: (pool.total_rewards + reward) as u64, ..pool },
                position: UserStakingInfo {
                    last_reward_claim: now,
                    rewards_accrued: (position.rewards_accrued + reward) as u64,
                    ..position
                },
                transfer: TransferAction {
                    direction: TransferDirection::PoolToDepositor,
                    amount: reward,
                },
            },
        )
    }
}

/// Create the pool record for a new deployment. The host must run this
/// exactly once per pool; guarding against re-initialization of an existing
/// record is the storage layer's duty.
pub fn initialize(
    apy: u8,
    commission: u8,
    lock_up_period: i64,
    minimum_stake: u64,
    staking_start_time: i64,
    staking_cap: u64,
) -> (r: Result<StakingAccount, LedgerError>)
    ensures
        r == initialize_spec(apy, commission, lock_up_period, minimum_stake, staking_start_time, staking_cap),
        r matches Ok(p) ==> p.wf() && p.total_staked == 0 && p.total_rewards == 0,
{
    if apy > 100 || commission > 100 {
        return Err(LedgerError::InvalidArgument);
    }
    Ok(
        StakingAccount {
            total_staked: 0,
            apy,
            commission,
            lock_up_period,
            minimum_stake,
            staking_start_time,
            staking_cap,
            total_rewards: 0,
        },
    )
}

/// Lock `amount` more units into the pool for this depositor. On success the
/// returned update adds `amount` to both `pool.total_staked` and
/// `position.amount_staked` and asks the host to move `amount` from the
/// depositor to the pool; a zero or below-minimum amount is rejected with
/// `InvalidArgument`, as is an amount that would push the pool past its cap,
/// and an amount that would overflow either counter fails with `Overflow`.
pub fn stake(pool: &StakingAccount, position: &UserStakingInfo, amount: u64) -> (r: Result<
    LedgerUpdate,
    LedgerError,
>)
    ensures
        r == stake_spec(*pool, *position, amount),
        pool.wf() ==> (r matches Ok(u) ==> u.pool.wf()),
{
    if amount == 0 {
        return Err(LedgerError::InvalidArgument);
    }
    if amount < pool.minimum_stake {
        return Err(LedgerError::InvalidArgument);
    }
    let new_total = match pool.total_staked.checked_add(amount) {
        Some(t) => t,
        None => {
            return Err(LedgerError::Overflow);
        },
    };
    if new_total > pool.staking_cap {
        return Err(LedgerError::InvalidArgument);
    }
    let new_amount = match position.amount_staked.checked_add(amount) {
        Some(a) => a,
        None => {
            return Err(LedgerError::Overflow);
        },
    };
    Ok(
        LedgerUpdate {
            pool: StakingAccount { total_staked: new_total, ..*pool },
            position: UserStakingInfo { amount_staked: new_amount, ..*position },
            transfer: TransferAction { direction: TransferDirection::DepositorToPool, amount },
        },
    )
}

/// Release `amount` units back to this depositor. On success the returned
/// update subtracts `amount` from both counters and asks the host to move
/// `amount` from the pool to the depositor; an amount beyond the position's
/// stake fails with `InsufficientFunds`, and — defensively, though the pool
/// invariant makes it unreachable — an amount beyond the pool's total fails
/// with `Underflow`.
pub fn unstake(pool: &StakingAccount, position: &UserStakingInfo, amount: u64) -> (r: Result<
    LedgerUpdate,
    LedgerError,
>)
    ensures
        r == unstake_spec(*pool, *position, amount),
        pool.wf() ==> (r matches Ok(u) ==> u.pool.wf()),
{
    if amount > position.amount_staked {
        return Err(LedgerError::InsufficientFunds);
    }
    let new_total = match pool.total_staked.checked_sub(amount) {
        Some(t) => t,
        None => {
            return Err(LedgerError::Underflow);
        },
    };
    let new_amount = position.amount_staked - amount;
    Ok(
        LedgerUpdate {
            pool: StakingAccount { total_staked: new_total, ..*pool },
            position: UserStakingInfo { amount_staked: new_amount, ..*position },
            transfer: TransferAction { direction: TransferDirection::PoolToDepositor, amount },
        },
    )
}

/// Pay out the reward accrued since the last claim. On success the returned
/// update asks the host to move the reward from the pool to the depositor's
/// receiving account, stamps `position.last_reward_claim = now`, and adds the
/// reward to both cumulative counters. A claim with no time elapsed fails
/// with `InvalidArgument`; a reward or counter past its range fails with
/// `Overflow`.
pub fn claim_rewards(pool: &StakingAccount, position: &UserStakingInfo, now: i64) -> (r: Result<
    LedgerUpdate,
    LedgerError,
>)
    requires
        pool.wf(),
    ensures
        r == claim_spec(*pool, *position, now),
        r matches Ok(u) ==> u.pool.wf(),
{
    if now <= position.last_reward_claim {
        return Err(LedgerError::InvalidArgument);
    }
    let elapsed = match now.checked_sub(position.last_reward_claim) {
        Some(e) => e,
        None => {
            return Err(LedgerError::Overflow);
        },
    };
    proof {
        lemma_mul_upper_bound(position.amount_staked as int, u64::MAX as int, pool.apy as int, 100);
    }
    let scaled = (position.amount_staked as u128) * (pool.apy as u128);
    proof {
        lemma_mul_upper_bound(scaled as int, u64::MAX as int * 100, (100 - pool.commission) as int, 100);
    }
    let weighted = scaled * ((100 - pool.commission) as u128);
    let product = match weighted.checked_mul(elapsed as u128) {
        Some(p) => p,
        None => {
            proof {
                let d = REWARD_RATE_DENOMINATOR as int;
                let prod = weighted * elapsed;
                lemma_div_is_ordered(d * (u64::MAX + 1), prod, d);
                lemma_div_multiples_vanish(u64::MAX + 1, d);
            }
            return Err(LedgerError::Overflow);
        },
    };
    let reward128 = product / REWARD_RATE_DENOMINATOR;
    if reward128 > (u64::MAX as u128) {
        return Err(LedgerError::Overflow);
    }
    let reward = reward128 as u64;
    let new_accrued = match position.rewards_accrued.checked_add(reward) {
        Some(a) => a,
        None => {
            return Err(LedgerError::Overflow);
        },
    };
    let new_total_rewards = match pool.total_rewards.checked_add(reward) {
        Some(t) => t,
        None => {
            return Err(LedgerError::Overflow);
        },
    };
    Ok(
        LedgerUpdate {
            pool: StakingAccount { total_rewards: new_total_rewards, ..*pool },
            position: UserStakingInfo {
                last_reward_claim: now,
                rewards_accrued: new_accrued,
                ..*position
            },
            transfer: TransferAction { direction: TransferDirection::PoolToDepositor, amount: reward },
        },
    )
}

/// The commit/abort boundary: the host reports whether the transfer named by
/// `update` went through, and only a successful transfer yields the updated
/// records; a failed one abandons them with `TransferFailed`, so no ledger
/// field ever changes without its payment.
pub fn commit(update: LedgerUpdate, transfer_succeeded: bool) -> (r: Result<
    (StakingAccount, UserStakingInfo),
    LedgerError,
>)
    ensures
        transfer_succeeded ==> r == Ok::<(StakingAccount, UserStakingInfo), LedgerError>(
            (update.pool, update.position),
        ),
        !transfer_succeeded ==> r == Err::<(StakingAccount, UserStakingInfo), LedgerError>(
            LedgerError::TransferFailed,
        ),
{
    if transfer_succeeded {
        Ok((update.pool, update.position))
    } else {
        Err(LedgerError::TransferFailed)
    }
}

} // verus!
