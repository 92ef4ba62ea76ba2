use staking_contract::errors::LedgerError;
use staking_contract::ops::{commit, initialize, stake, unstake, TransferDirection};
use staking_contract::state::{StakingAccount, UserStakingInfo};

fn pool_with(total_staked: u64, apy: u8, commission: u8, minimum_stake: u64, staking_cap: u64) -> StakingAccount {
    StakingAccount {
        total_staked,
        apy,
        commission,
        lock_up_period: 0,
        minimum_stake,
        staking_start_time: 0,
        staking_cap,
        total_rewards: 0,
    }
}

fn position_with(user: u64, amount_staked: u64) -> UserStakingInfo {
    UserStakingInfo {
        user,
        amount_staked,
        last_reward_claim: 0,
        staking_start_time: 0,
        rewards_accrued: 0,
        unstaking_start_time: 0,
    }
}

#[test]
fn initialize_creates_empty_pool() {
    let pool = initialize(7, 5, 3600, 100, 50, 1_000_000).unwrap();
    assert_eq!(pool.total_staked, 0);
    assert_eq!(pool.apy, 7);
    assert_eq!(pool.commission, 5);
    assert_eq!(pool.lock_up_period, 3600);
    assert_eq!(pool.minimum_stake, 100);
    assert_eq!(pool.staking_start_time, 50);
    assert_eq!(pool.staking_cap, 1_000_000);
    assert_eq!(pool.total_rewards, 0);
}

#[test]
fn initialize_rejects_apy_above_hundred() {
    assert_eq!(initialize(101, 0, 0, 0, 0, u64::MAX), Err(LedgerError::InvalidArgument));
}

#[test]
fn initialize_rejects_commission_above_hundred() {
    assert_eq!(initialize(10, 101, 0, 0, 0, u64::MAX), Err(LedgerError::InvalidArgument));
}

#[test]
fn new_position_starts_empty() {
    let p = UserStakingInfo::new(42, 1000);
    assert_eq!(p.user, 42);
    assert_eq!(p.amount_staked, 0);
    assert_eq!(p.last_reward_claim, 1000);
    assert_eq!(p.staking_start_time, 1000);
    assert_eq!(p.rewards_accrued, 0);
    assert_eq!(p.unstaking_start_time, 0);
}

#[test]
fn stake_zero_rejected() {
    let pool = pool_with(0, 10, 0, 0, u64::MAX);
    let pos = position_with(1, 0);
    assert_eq!(stake(&pool, &pos, 0), Err(LedgerError::InvalidArgument));
}

#[test]
fn stake_below_minimum_rejected() {
    let pool = pool_with(0, 10, 0, 500, u64::MAX);
    let pos = position_with(1, 0);
    assert_eq!(stake(&pool, &pos, 499), Err(LedgerError::InvalidArgument));
}

#[test]
fn stake_at_minimum_accepted() {
    let pool = pool_with(0, 10, 0, 500, u64::MAX);
    let pos = position_with(1, 0);
    assert!(stake(&pool, &pos, 500).is_ok());
}

#[test]
fn stake_updates_both_counters() {
    let pool = pool_with(1000, 10, 0, 0, u64::MAX);
    let pos = position_with(1, 300);
    let update = stake(&pool, &pos, 250).unwrap();
    assert_eq!(update.pool.total_staked, 1250);
    assert_eq!(update.position.amount_staked, 550);
    assert_eq!(update.transfer.direction, TransferDirection::DepositorToPool);
    assert_eq!(update.transfer.amount, 250);
    assert_eq!(update.pool.staking_cap, pool.staking_cap);
    assert_eq!(update.position.user, pos.user);
}

#[test]
fn stake_past_cap_rejected() {
    let pool = pool_with(900, 10, 0, 0, 1000);
    let pos = position_with(1, 900);
    assert_eq!(stake(&pool, &pos, 101), Err(LedgerError::InvalidArgument));
    assert!(stake(&pool, &pos, 100).is_ok());
}

#[test]
fn stake_overflowing_pool_total_fails() {
    let pool = pool_with(u64::MAX, 10, 0, 0, u64::MAX);
    let pos = position_with(1, 0);
    assert_eq!(stake(&pool, &pos, 1), Err(LedgerError::Overflow));
}

#[test]
fn stake_overflowing_position_amount_fails() {
    let pool = pool_with(0, 10, 0, 0, u64::MAX);
    let pos = position_with(1, u64::MAX);
    assert_eq!(stake(&pool, &pos, 1), Err(LedgerError::Overflow));
}

#[test]
fn unstake_more_than_staked_rejected() {
    let pool = pool_with(500, 10, 0, 0, u64::MAX);
    let pos = position_with(1, 500);
    assert_eq!(unstake(&pool, &pos, 600), Err(LedgerError::InsufficientFunds));
    assert_eq!(pos.amount_staked, 500);
    assert_eq!(pool.total_staked, 500);
}

#[test]
fn unstake_updates_both_counters() {
    let pool = pool_with(1000, 10, 0, 0, u64::MAX);
    let pos = position_with(1, 400);
    let update = unstake(&pool, &pos, 150).unwrap();
    assert_eq!(update.pool.total_staked, 850);
    assert_eq!(update.position.amount_staked, 250);
    assert_eq!(update.transfer.direction, TransferDirection::PoolToDepositor);
    assert_eq!(update.transfer.amount, 150);
}

#[test]
fn unstake_whole_position_empties_it() {
    let pool = pool_with(400, 10, 0, 0, u64::MAX);
    let pos = position_with(1, 400);
    let update = unstake(&pool, &pos, 400).unwrap();
    assert_eq!(update.pool.total_staked, 0);
    assert_eq!(update.position.amount_staked, 0);
}

#[test]
fn unstake_pool_underflow_checked_defensively() {
    let pool = pool_with(100, 10, 0, 0, u64::MAX);
    let pos = position_with(1, 200);
    assert_eq!(unstake(&pool, &pos, 150), Err(LedgerError::Underflow));
}

#[test]
fn commit_applies_records_on_successful_transfer() {
    let pool = pool_with(1000, 10, 0, 0, u64::MAX);
    let pos = position_with(1, 300);
    let update = stake(&pool, &pos, 200).unwrap();
    let (new_pool, new_pos) = commit(update, true).unwrap();
    assert_eq!(new_pool, update.pool);
    assert_eq!(new_pos, update.position);
}

#[test]
fn commit_abandons_records_on_failed_transfer() {
    let pool = pool_with(1000, 10, 0, 0, u64::MAX);
    let pos = position_with(1, 300);
    let update = stake(&pool, &pos, 200).unwrap();
    assert_eq!(commit(update, false), Err(LedgerError::TransferFailed));
}
