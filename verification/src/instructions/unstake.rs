use crate::state::{is_first_at, paired, ErrorCode, User, Vault, VaultStatus};
use crate::utils::{find_first, settle_fits, settled, update_rewards};
use vstd::prelude::*;

verus! {

/// Unstake succeeds: the vault is ready, the record is in the user's list,
/// and the settlement stays within its widths.
pub open spec fn unstake_allowed(v: Vault, u: User, stake_account: u64, now: u64) -> bool {
    &&& v.status == VaultStatus::Initialized
    &&& u.mint_accounts@.contains(stake_account)
    &&& settle_fits(u, v.reward_rate, now)
}

/// The error Unstake returns when it does not succeed, checks in the order
/// the handler makes them.
pub open spec fn unstake_error(v: Vault, u: User, stake_account: u64, now: u64) -> ErrorCode {
    if v.status != VaultStatus::Initialized {
        ErrorCode::CanNotStake
    } else if !u.mint_accounts@.contains(stake_account) {
        ErrorCode::AccountNotStaked
    } else {
        ErrorCode::Overflow
    }
}

/// Removes `stake_account` from the user's staked-record list and lowers both
/// staked counters, settling the user's pending reward first, on the count as
/// it stood — the record's share of the rate is earned up to this very
/// moment.
///
/// The caller has been authenticated as `user.key` by the substrate. On
/// success the custody collaborator must then move control of the record from
/// the vault-derived custody address back to the caller; on an error nothing
/// changes and nothing may move. Neither counter can underflow: the record's
/// membership puts at least one in each.
pub fn unstake(vault: &mut Vault, user: &mut User, stake_account: u64, now: u64) -> (r: Result<
    (),
    ErrorCode,
>)
    requires
        old(vault).wf(),
        old(user).wf(),
        paired(*old(vault), *old(user)),
    ensures
        final(vault).wf(),
        final(user).wf(),
        paired(*final(vault), *final(user)),
        r is Ok <==> unstake_allowed(*old(vault), *old(user), stake_account, now),
        r matches Err(e) ==> *final(vault) == *old(vault) && *final(user) == *old(user) && e
            == unstake_error(*old(vault), *old(user), stake_account, now),
        r is Ok ==> {
            let su = settled(*old(user), old(vault).reward_rate, now);
            &&& final(user).reward_earned_pending == su.reward_earned_pending
            &&& final(user).last_stake_time == su.last_stake_time
            &&& final(user).mint_staked_count == old(user).mint_staked_count - 1
            &&& exists|i: int|
                is_first_at(old(user).mint_accounts@, stake_account, i)
                    && final(user).mint_accounts@ == old(user).mint_accounts@.remove(i)
            &&& final(user).key == old(user).key
            &&& final(user).vault == old(user).vault
            &&& final(user).reward_earned_claimed == old(user).reward_earned_claimed
            &&& final(vault).staked_count == old(vault).staked_count - 1
            &&& *final(vault) == (Vault {
                staked_count: final(vault).staked_count,
                ..*old(vault)
            })
        },
{
    if vault.status != VaultStatus::Initialized {
        return Err(ErrorCode::CanNotStake);
    }
    let idx: usize = match find_first(&user.mint_accounts, stake_account) {
        Some(i) => i,
        None => {
            return Err(ErrorCode::AccountNotStaked);
        },
    };
    proof {
        assert(old(user).mint_accounts@.contains(stake_account)) by {
            assert(old(user).mint_accounts@[idx as int] == stake_account);
        }
    }
    match update_rewards(vault.reward_rate, user, now) {
        Ok(()) => {},
        Err(e) => {
            return Err(e);
        },
    }
    user.mint_accounts.remove(idx);
    user.mint_staked_count = user.mint_staked_count - 1;
    vault.staked_count = vault.staked_count - 1;
    Ok(())
}

} // verus!
