use token_staking::state::{ErrorCode, User};
use token_staking::utils::{earned, update_rewards};

fn staked_user(count: u32, pending: u64, last: u64) -> User {
    User {
        key: 5,
        vault: 11,
        mint_accounts: (0..count as u64).collect(),
        mint_staked_count: count,
        reward_earned_claimed: 0,
        reward_earned_pending: pending,
        last_stake_time: last,
    }
}

#[test]
fn earned_computes_the_exact_amount() {
    // (2_500_000 / 10^6) * 2 * 5 + 7 = 2 * 2 * 5 + 7
    assert_eq!(earned(5, 2, 2_500_000, 7), Ok(27));
}

#[test]
fn earned_truncates_the_rate_before_multiplying() {
    // A rate of 1000 at precision 10^6 truncates to zero whole units per
    // record per second: nothing accrues, whatever the count and elapsed time.
    assert_eq!(earned(5, 2, 1_000, 0), Ok(0));
    assert_eq!(earned(5, 2, 1_000, 41), Ok(41));
    // A rate that does not divide evenly keeps only its whole part:
    // 1_999_999 / 10^6 = 1, so 1 * 2 * 5 on top of the pending amount.
    assert_eq!(earned(5, 2, 1_999_999, 3), Ok(13));
}

#[test]
fn earned_rejects_an_amount_beyond_the_reward_width() {
    assert_eq!(earned(u64::MAX, u32::MAX, u128::MAX, 0), Err(ErrorCode::Overflow));
    // 2 * 10^19 exceeds u64::MAX.
    assert_eq!(earned(10_000_000_000_000_000_000, 2, 1_000_000, 0), Err(ErrorCode::Overflow));
}

#[test]
fn settling_twice_at_the_same_timestamp_moves_nothing() {
    let mut u = staked_user(2, 0, 100);
    assert_eq!(update_rewards(3_000_000, &mut u, 110), Ok(()));
    let pending_after_first = u.reward_earned_pending;
    assert_eq!(pending_after_first, 3 * 2 * 10);
    assert_eq!(u.last_stake_time, 110);
    assert_eq!(update_rewards(3_000_000, &mut u, 110), Ok(()));
    assert_eq!(u.reward_earned_pending, pending_after_first);
    assert_eq!(u.last_stake_time, 110);
}

#[test]
fn pending_reward_never_decreases_and_rests_while_nothing_is_staked() {
    let mut idle = staked_user(0, 17, 100);
    assert_eq!(update_rewards(3_000_000, &mut idle, 500), Ok(()));
    assert_eq!(idle.reward_earned_pending, 17);
    assert_eq!(idle.last_stake_time, 500);

    let mut busy = staked_user(3, 17, 100);
    assert_eq!(update_rewards(3_000_000, &mut busy, 101), Ok(()));
    assert!(busy.reward_earned_pending >= 17);
    assert_eq!(busy.reward_earned_pending, 17 + 3 * 3);
}

#[test]
fn settlement_clamps_a_clock_running_backwards() {
    let mut u = staked_user(2, 9, 100);
    assert_eq!(update_rewards(3_000_000, &mut u, 40), Ok(()));
    assert_eq!(u.reward_earned_pending, 9);
    assert_eq!(u.last_stake_time, 100);
}
