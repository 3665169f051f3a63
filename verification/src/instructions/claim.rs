use crate::state::{ErrorCode, User, Vault, VaultStatus};
use crate::utils::{earned, earned_amount, elapsed_u64, settle_fits, settled};
use vstd::prelude::*;

verus! {

/// The amount a Claim at `now` pays out: the user's pending reward once it
/// has been settled up to `now`.
pub open spec fn claim_amount(v: Vault, u: User, now: u64) -> nat {
    earned_amount(
        elapsed_u64(u.last_stake_time, now),
        u.mint_staked_count,
        v.reward_rate,
        u.reward_earned_pending,
    )
}

/// Claim succeeds: the vault is ready, the settlement stays within its
/// widths, the vault's reward pool covers the settled pending amount, and the
/// cumulative claimed total can take it.
pub open spec fn claim_allowed(v: Vault, u: User, pool_balance: u64, now: u64) -> bool {
    &&& v.status == VaultStatus::Initialized
    &&& settle_fits(u, v.reward_rate, now)
    &&& claim_amount(v, u, now) <= pool_balance
    &&& u.reward_earned_claimed + claim_amount(v, u, now) <= u64::MAX
}

/// The error Claim returns when it does not succeed, checks in the order the
/// handler makes them.
pub open spec fn claim_error(v: Vault, u: User, pool_balance: u64, now: u64) -> ErrorCode {
    if v.status != VaultStatus::Initialized {
        ErrorCode::VaultNotReady
    } else if !settle_fits(u, v.reward_rate, now) {
        ErrorCode::Overflow
    } else if claim_amount(v, u, now) > pool_balance {
        ErrorCode::InsufficientRewardPool
    } else {
        ErrorCode::Overflow
    }
}

/// Pays out the user's accrued reward: settles the pending reward up to
/// `now`, moves the whole of it into the cumulative claimed total, zeroes the
/// pending amount, and returns the amount paid.
///
/// The caller has been authenticated as `user.key` by the substrate;
/// `pool_balance` is the custody collaborator's reading of the vault's reward
/// pool. On success the collaborator must then transfer the returned amount
/// from the pool to the caller — zero is a no-op transfer. On an error
/// nothing changes and nothing may move.
pub fn claim(vault: &Vault, user: &mut User, pool_balance: u64, now: u64) -> (r: Result<
    u64,
    ErrorCode,
>)
    requires
        vault.wf(),
        old(user).wf(),
        old(user).vault == vault.key,
    ensures
        final(user).wf(),
        final(user).vault == old(user).vault,
        r is Ok <==> claim_allowed(*vault, *old(user), pool_balance, now),
        r matches Err(e) ==> *final(user) == *old(user) && e == claim_error(
            *vault,
            *old(user),
            pool_balance,
            now,
        ),
        r matches Ok(amount) ==> {
            &&& amount == claim_amount(*vault, *old(user), now)
            &&& amount <= pool_balance
            &&& final(user).reward_earned_pending == 0
            &&& final(user).reward_earned_claimed == old(user).reward_earned_claimed + amount
            &&& final(user).last_stake_time == settled(
                *old(user),
                vault.reward_rate,
                now,
            ).last_stake_time
            &&& *final(user) == (User {
                reward_earned_pending: 0,
                reward_earned_claimed: final(user).reward_earned_claimed,
                last_stake_time: final(user).last_stake_time,
                ..*old(user)
            })
        },
{
    if vault.status != VaultStatus::Initialized {
        return Err(ErrorCode::VaultNotReady);
    }
    let time_diff: u64 = if now >= user.last_stake_time {
        now - user.last_stake_time
    } else {
        0
    };
    let amount: u64 = match earned(
        time_diff,
        user.mint_staked_count,
        vault.reward_rate,
        user.reward_earned_pending,
    ) {
        Ok(a) => a,
        Err(e) => {
            return Err(e);
        },
    };
    if pool_balance < amount {
        return Err(ErrorCode::InsufficientRewardPool);
    }
    let new_claimed: u64 = match user.reward_earned_claimed.checked_add(amount) {
        Some(c) => c,
        None => {
            return Err(ErrorCode::Overflow);
        },
    };
    user.reward_earned_claimed = new_claimed;
    user.reward_earned_pending = 0;
    if now >= user.last_stake_time {
        user.last_stake_time = now;
    }
    Ok(amount)
}

} // verus!
