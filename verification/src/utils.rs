use crate::constant::CALC_PRECISION;
use crate::state::{is_first_at, ErrorCode, User};
use vstd::prelude::*;

verus! {

/// Elapsed time credited by a settlement at `now`: the distance from the last
/// settlement, clamped at zero should the clock ever report a timestamp
/// before it.
pub open spec fn elapsed_u64(last_stake_time: u64, now: u64) -> u64 {
    if now >= last_stake_time {
        (now - last_stake_time) as u64
    } else {
        0
    }
}

/// The settlement timestamp recorded by a settlement at `now`: it moves the
/// user's clock forward, never backward.
pub open spec fn stake_time_after(last_stake_time: u64, now: u64) -> u64 {
    if now >= last_stake_time {
        now
    } else {
        last_stake_time
    }
}

/// The accrual formula: `(rate / CALC_PRECISION) * staked * elapsed +
/// pending`, with the rate truncated to whole reward units per record per
/// second before it is multiplied out.
pub open spec fn earned_amount(
    elapsed_time: u64,
    balance_staked: u32,
    reward_rate_per_token: u128,
    reward_pending: u64,
) -> nat {
    reward_rate_per_token as nat / CALC_PRECISION as nat * balance_staked as nat
        * elapsed_time as nat + reward_pending as nat
}

/// The accrual computation stays within its widths: each intermediate product
/// fits the 128-bit accumulator, and the final amount fits the stored 64-bit
/// reward width.
pub open spec fn earned_fits(
    elapsed_time: u64,
    balance_staked: u32,
    reward_rate_per_token: u128,
    reward_pending: u64,
) -> bool {
    let per_second = reward_rate_per_token as nat / CALC_PRECISION as nat;
    &&& per_second * balance_staked as nat <= u128::MAX
    &&& per_second * balance_staked as nat * elapsed_time as nat <= u128::MAX
    &&& earned_amount(elapsed_time, balance_staked, reward_rate_per_token, reward_pending)
        <= u64::MAX
}

/// The reward accrual engine: what `elapsed_time` seconds at
/// `reward_rate_per_token` earn on `balance_staked` records, on top of the
/// reward already pending. Every step is checked; an intermediate or final
/// value out of width rejects the computation instead of wrapping.
pub fn earned(
    elapsed_time: u64,
    balance_staked: u32,
    reward_rate_per_token: u128,
    user_reward_per_token_pending: u64,
) -> (r: Result<u64, ErrorCode>)
    ensures
        r is Ok <==> earned_fits(
            elapsed_time,
            balance_staked,
            reward_rate_per_token,
            user_reward_per_token_pending,
        ),
        r matches Ok(v) ==> v == earned_amount(
            elapsed_time,
            balance_staked,
            reward_rate_per_token,
            user_reward_per_token_pending,
        ),
        r matches Err(e) ==> e == ErrorCode::Overflow,
{
    let per_second: u128 = reward_rate_per_token / CALC_PRECISION;
    let on_stake: u128 = match per_second.checked_mul(balance_staked as u128) {
        Some(p) => p,
        None => {
            return Err(ErrorCode::Overflow);
        },
    };
    let over_time: u128 = match on_stake.checked_mul(elapsed_time as u128) {
        Some(p) => p,
        None => {
            return Err(ErrorCode::Overflow);
        },
    };
    let total: u128 = match over_time.checked_add(user_reward_per_token_pending as u128) {
        Some(p) => p,
        None => {
            return Err(ErrorCode::Overflow);
        },
    };
    if total > u64::MAX as u128 {
        return Err(ErrorCode::Overflow);
    }
    Ok(total as u64)
}

/// The accrual engine stays within its widths when run for the user's state
/// as it stands, at time `now`.
pub open spec fn settle_fits(u: User, reward_rate: u128, now: u64) -> bool {
    earned_fits(
        elapsed_u64(u.last_stake_time, now),
        u.mint_staked_count,
        reward_rate,
        u.reward_earned_pending,
    )
}

/// The user after a settlement at `now`: pending reward brought up to date by
/// the accrual formula, settlement clock advanced, everything else untouched.
/// Meaningful only where `settle_fits` holds.
pub open spec fn settled(u: User, reward_rate: u128, now: u64) -> User {
    User {
        reward_earned_pending: earned_amount(
            elapsed_u64(u.last_stake_time, now),
            u.mint_staked_count,
            reward_rate,
            u.reward_earned_pending,
        ) as u64,
        last_stake_time: stake_time_after(u.last_stake_time, now),
        ..u
    }
}

/// Settlement: brings the user's pending reward up to `now` and advances the
/// settlement clock. Every handler that changes `mint_staked_count` or moves
/// reward totals runs this first, on the counts as they stand — settling
/// after a count change would attribute the new count's rate retroactively.
/// On rejection the user is left exactly as it was.
pub fn update_rewards(reward_rate: u128, user: &mut User, now: u64) -> (r: Result<(), ErrorCode>)
    ensures
        r is Ok <==> settle_fits(*old(user), reward_rate, now),
        r is Ok ==> *final(user) == settled(*old(user), reward_rate, now),
        r matches Err(e) ==> *final(user) == *old(user) && e == ErrorCode::Overflow,
{
    let time_diff: u64 = if now >= user.last_stake_time {
        now - user.last_stake_time
    } else {
        0
    };
    match earned(time_diff, user.mint_staked_count, reward_rate, user.reward_earned_pending) {
        Ok(p) => {
            user.reward_earned_pending = p;
            if now >= user.last_stake_time {
                user.last_stake_time = now;
            }
            proof {
                assert(*user =~= settled(*old(user), reward_rate, now));
            }
            Ok(())
        },
        Err(e) => Err(e),
    }
}

/// Position of the first occurrence of `x` in `v`, if any.
pub fn find_first(v: &Vec<u64>, x: u64) -> (r: Option<usize>)
    ensures
        r matches Some(i) ==> is_first_at(v@, x, i as int),
        r is None ==> !v@.contains(x),
{
    let mut i: usize = 0;
    while i < v.len()
        invariant
            0 <= i <= v@.len(),
            forall|j: int| 0 <= j < i ==> v@[j] != x,
        decreases v@.len() - i,
    {
        if v[i] == x {
            return Some(i);
        }
        i = i + 1;
    }
    assert(forall|j: int| 0 <= j < v@.len() ==> v@[j] != x);
    None
}

/// Whether `x` occurs in `v`.
pub fn contains_id(v: &Vec<u64>, x: u64) -> (r: bool)
    ensures
        r == v@.contains(x),
{
    match find_first(v, x) {
        Some(i) => {
            proof {
                assert(v@[i as int] == x);
            }
            true
        },
        None => false,
    }
}

} // verus!
