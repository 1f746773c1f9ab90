//! Pool-level ledger behaviour: reward distribution, burns, donations and
//! treasury withdrawal.

use stake_ledger::errors::StakeError;
use stake_ledger::state::PoolState;

const SCALE: u128 = 10_000_000_000;

fn pool_with(total_staked: u64, total_user_principal: u64) -> PoolState {
    PoolState {
        authority: 7,
        total_staked,
        total_user_principal,
        reward_index: 0,
        burn_index: 0,
        undistributed_donations: 0,
    }
}

#[test]
fn new_pool_is_empty() {
    let pool = PoolState::new(42);
    assert_eq!(pool.authority, 42);
    assert_eq!(pool.total_staked, 0);
    assert_eq!(pool.total_user_principal, 0);
    assert_eq!(pool.reward_index, 0);
    assert_eq!(pool.burn_index, 0);
    assert_eq!(pool.undistributed_donations, 0);
}

#[test]
fn distribute_advances_index_against_pre_distribution_total() {
    let mut pool = pool_with(1000, 1000);
    assert_eq!(pool.distribute_reward(100), Ok(()));
    // 100 * SCALE / 1000, measured against the total before the reward joined
    assert_eq!(pool.reward_index, 100 * SCALE / 1000);
    assert_eq!(pool.reward_index, 1_000_000_000);
    assert_eq!(pool.total_staked, 1100);
    assert_eq!(pool.total_user_principal, 1000);
}

#[test]
fn distribute_floors_the_per_unit_gain() {
    let mut pool = pool_with(3, 3);
    assert_eq!(pool.distribute_reward(7), Ok(()));
    // 7 * SCALE / 3 floored
    assert_eq!(pool.reward_index, 23_333_333_333);
    assert_eq!(pool.total_staked, 10);
}

#[test]
fn distribute_with_no_stakers_is_absorbed() {
    let mut pool = pool_with(0, 0);
    assert_eq!(pool.distribute_reward(100), Ok(()));
    assert_eq!(pool.total_staked, 100);
    assert_eq!(pool.reward_index, 0);
}

#[test]
fn distribute_zero_amount_is_refused() {
    let mut pool = pool_with(1000, 1000);
    let before = pool;
    assert_eq!(pool.distribute_reward(0), Err(StakeError::ZeroAmount));
    assert_eq!(pool, before);
}

#[test]
fn distribute_overflowing_the_total_is_refused() {
    let mut pool = pool_with(u64::MAX, 0);
    let before = pool;
    assert_eq!(pool.distribute_reward(1), Err(StakeError::ArithmeticOverflow));
    assert_eq!(pool, before);
}

#[test]
fn distribute_overflowing_the_index_is_refused() {
    let mut pool = pool_with(1, 1);
    pool.reward_index = u128::MAX;
    let before = pool;
    // gain would be 5 * SCALE on top of a saturated index
    assert_eq!(pool.distribute_reward(5), Err(StakeError::ArithmeticOverflow));
    assert_eq!(pool, before);
}

#[test]
fn burn_advances_index_against_user_principal() {
    let mut pool = pool_with(1000, 800);
    assert_eq!(pool.apply_burn(40), Ok(()));
    // 40 * SCALE / 800: the base is the recorded user principal, not the total
    assert_eq!(pool.burn_index, 40 * SCALE / 800);
    assert_eq!(pool.burn_index, 500_000_000);
    assert_eq!(pool.total_staked, 960);
    // burning never touches the recorded user principal directly
    assert_eq!(pool.total_user_principal, 800);
}

#[test]
fn burn_with_no_user_principal_is_absorbed() {
    let mut pool = pool_with(100, 0);
    assert_eq!(pool.apply_burn(50), Ok(()));
    assert_eq!(pool.total_staked, 50);
    assert_eq!(pool.burn_index, 0);
}

#[test]
fn burn_more_than_held_is_refused() {
    let mut pool = pool_with(50, 0);
    let before = pool;
    assert_eq!(pool.apply_burn(60), Err(StakeError::InsufficientFunds));
    assert_eq!(pool, before);
}

#[test]
fn burn_zero_amount_is_refused() {
    let mut pool = pool_with(1000, 800);
    let before = pool;
    assert_eq!(pool.apply_burn(0), Err(StakeError::ZeroAmount));
    assert_eq!(pool, before);
}

#[test]
fn burn_overflowing_the_index_is_refused() {
    let mut pool = pool_with(10, 1);
    pool.burn_index = u128::MAX;
    let before = pool;
    assert_eq!(pool.apply_burn(10), Err(StakeError::ArithmeticOverflow));
    assert_eq!(pool, before);
}

#[test]
fn indices_never_decrease_across_events() {
    let mut pool = pool_with(1000, 900);
    let mut last_reward = pool.reward_index;
    let mut last_burn = pool.burn_index;
    let events: [(bool, u64); 8] =
        [(true, 50), (false, 30), (true, 0), (false, 7), (true, 123), (false, 5000), (true, 1), (false, 1)];
    for (is_reward, amount) in events {
        if is_reward {
            let _ = pool.distribute_reward(amount);
        } else {
            let _ = pool.apply_burn(amount);
        }
        assert!(pool.reward_index >= last_reward);
        assert!(pool.burn_index >= last_burn);
        last_reward = pool.reward_index;
        last_burn = pool.burn_index;
    }
}

#[test]
fn donations_accumulate() {
    let mut pool = pool_with(0, 0);
    assert_eq!(pool.record_donation(100), Ok(()));
    assert_eq!(pool.record_donation(25), Ok(()));
    assert_eq!(pool.undistributed_donations, 125);
    // donations never touch the index machinery or the staking totals
    assert_eq!(pool.reward_index, 0);
    assert_eq!(pool.total_staked, 0);
}

#[test]
fn donation_of_zero_is_refused() {
    let mut pool = pool_with(0, 0);
    let before = pool;
    assert_eq!(pool.record_donation(0), Err(StakeError::ZeroAmount));
    assert_eq!(pool, before);
}

#[test]
fn donation_overflow_is_refused() {
    let mut pool = pool_with(0, 0);
    pool.undistributed_donations = u64::MAX;
    let before = pool;
    assert_eq!(pool.record_donation(1), Err(StakeError::ArithmeticOverflow));
    assert_eq!(pool, before);
}

#[test]
fn treasury_draw_within_balance_succeeds() {
    let mut pool = pool_with(500, 500);
    assert_eq!(pool.record_donation(100), Ok(()));
    assert_eq!(pool.draw_donation(60), Ok(()));
    assert_eq!(pool.undistributed_donations, 40);
    assert_eq!(pool.total_staked, 500);
}

#[test]
fn treasury_overdraw_fails_closed() {
    let mut pool = pool_with(500, 500);
    assert_eq!(pool.record_donation(100), Ok(()));
    let before = pool;
    assert_eq!(pool.draw_donation(150), Err(StakeError::InsufficientFunds));
    // every balance is exactly as it was
    assert_eq!(pool, before);
}

#[test]
fn treasury_draw_of_zero_is_refused() {
    let mut pool = pool_with(0, 0);
    assert_eq!(pool.record_donation(10), Ok(()));
    let before = pool;
    assert_eq!(pool.draw_donation(0), Err(StakeError::ZeroAmount));
    assert_eq!(pool, before);
}
