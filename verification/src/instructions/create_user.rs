use crate::state::{ErrorCode, User, Vault, VaultStatus};
use vstd::prelude::*;

verus! {

/// CreateUser succeeds: the vault is ready and its user counter can take one
/// more.
pub open spec fn create_user_allowed(v: Vault) -> bool {
    v.status == VaultStatus::Initialized && v.user_count < u64::MAX
}

/// The error CreateUser returns when it does not succeed.
pub open spec fn create_user_error(v: Vault) -> ErrorCode {
    if v.status != VaultStatus::Initialized {
        ErrorCode::VaultNotReady
    } else {
        ErrorCode::Overflow
    }
}

/// Creates the per-participant record for `caller` within the vault: all
/// counters at zero, an empty staked-record list, and the settlement clock
/// started at `now`. Raises the vault's live-user counter.
///
/// The storage collaborator derives the record's address from the vault and
/// the caller, so a second CreateUser for the same pair is rejected before
/// this handler runs.
pub fn create_user(vault: &mut Vault, caller: u64, now: u64) -> (r: Result<User, ErrorCode>)
    requires
        old(vault).wf(),
    ensures
        final(vault).wf(),
        r is Ok <==> create_user_allowed(*old(vault)),
        r matches Err(e) ==> *final(vault) == *old(vault) && e == create_user_error(*old(vault)),
        r matches Ok(u) ==> {
            &&& u.wf()
            &&& u.key == caller
            &&& u.vault == old(vault).key
            &&& u.mint_accounts@.len() == 0
            &&& u.mint_staked_count == 0
            &&& u.reward_earned_claimed == 0
            &&& u.reward_earned_pending == 0
            &&& u.last_stake_time == now
            &&& final(vault).user_count == old(vault).user_count + 1
            &&& *final(vault) == (Vault { user_count: final(vault).user_count, ..*old(vault) })
        },
{
    if vault.status != VaultStatus::Initialized {
        return Err(ErrorCode::VaultNotReady);
    }
    let new_user_count: u64 = match vault.user_count.checked_add(1) {
        Some(c) => c,
        None => {
            return Err(ErrorCode::Overflow);
        },
    };
    let user = User {
        key: caller,
        vault: vault.key,
        mint_accounts: Vec::new(),
        mint_staked_count: 0,
        reward_earned_claimed: 0,
        reward_earned_pending: 0,
        last_stake_time: now,
    };
    vault.user_count = new_user_count;
    Ok(user)
}

} // verus!
