use crate::constant::MAX_MINT_LIMIT;
use crate::state::{paired, ErrorCode, User, Vault, VaultStatus};
use crate::utils::{contains_id, settle_fits, settled, update_rewards};
use vstd::prelude::*;

verus! {

/// Stake succeeds: the vault is ready, the user's list has room, the record
/// is not already staked, the settlement stays within its widths, and the
/// vault's aggregate counter can take one more.
pub open spec fn stake_allowed(v: Vault, u: User, stake_account: u64, now: u64) -> bool {
    &&& v.status == VaultStatus::Initialized
    &&& u.mint_accounts@.len() < MAX_MINT_LIMIT
    &&& !u.mint_accounts@.contains(stake_account)
    &&& v.staked_count < u64::MAX
    &&& settle_fits(u, v.reward_rate, now)
}

/// The error Stake returns when it does not succeed, checks in the order the
/// handler makes them.
pub open spec fn stake_error(v: Vault, u: User, stake_account: u64, now: u64) -> ErrorCode {
    if v.status != VaultStatus::Initialized {
        ErrorCode::CanNotStake
    } else if u.mint_accounts@.len() >= MAX_MINT_LIMIT {
        ErrorCode::MaxStakeCountReached
    } else if u.mint_accounts@.contains(stake_account) {
        ErrorCode::AlreadyStakedAccount
    } else {
        ErrorCode::Overflow
    }
}

/// Places `stake_account` into the user's staked-record list and raises both
/// staked counters, settling the user's pending reward first, on the count as
/// it stood — settling after the increment would attribute the new count's
/// rate to time that has already passed.
///
/// The caller has been authenticated as `user.key` by the substrate, which
/// has also checked that the record's custody balance is positive
/// (`stake_balance`). On success the custody collaborator must then move
/// control of the record from the caller to the vault-derived custody
/// address; on an error nothing changes and nothing may move.
pub fn stake(
    vault: &mut Vault,
    user: &mut User,
    stake_account: u64,
    stake_balance: u64,
    now: u64,
) -> (r: Result<(), ErrorCode>)
    requires
        old(vault).wf(),
        old(user).wf(),
        paired(*old(vault), *old(user)),
        stake_balance > 0,
    ensures
        final(vault).wf(),
        final(user).wf(),
        paired(*final(vault), *final(user)),
        r is Ok <==> stake_allowed(*old(vault), *old(user), stake_account, now),
        r matches Err(e) ==> *final(vault) == *old(vault) && *final(user) == *old(user) && e
            == stake_error(*old(vault), *old(user), stake_account, now),
        r is Ok ==> {
            let su = settled(*old(user), old(vault).reward_rate, now);
            &&& final(user).reward_earned_pending == su.reward_earned_pending
            &&& final(user).last_stake_time == su.last_stake_time
            &&& final(user).mint_staked_count == old(user).mint_staked_count + 1
            &&& final(user).mint_accounts@ == old(user).mint_accounts@.push(stake_account)
            &&& final(user).key == old(user).key
            &&& final(user).vault == old(user).vault
            &&& final(user).reward_earned_claimed == old(user).reward_earned_claimed
            &&& final(vault).staked_count == old(vault).staked_count + 1
            &&& *final(vault) == (Vault {
                staked_count: final(vault).staked_count,
                ..*old(vault)
            })
        },
{
    if vault.status != VaultStatus::Initialized {
        return Err(ErrorCode::CanNotStake);
    }
    if user.mint_accounts.len() >= MAX_MINT_LIMIT {
        return Err(ErrorCode::MaxStakeCountReached);
    }
    if contains_id(&user.mint_accounts, stake_account) {
        return Err(ErrorCode::AlreadyStakedAccount);
    }
    let new_staked_count: u64 = match vault.staked_count.checked_add(1) {
        Some(c) => c,
        None => {
            return Err(ErrorCode::Overflow);
        },
    };
    match update_rewards(vault.reward_rate, user, now) {
        Ok(()) => {},
        Err(e) => {
            return Err(e);
        },
    }
    user.mint_staked_count = user.mint_staked_count + 1;
    user.mint_accounts.push(stake_account);
    vault.staked_count = new_staked_count;
    Ok(())
}

} // verus!
