use crate::state::{ErrorCode, User, Vault, VaultStatus};
use crate::utils::{settle_fits, settled, update_rewards};
use vstd::prelude::*;

verus! {

/// CloseUser succeeds: the vault is ready, the user has no pending reward
/// left, the vault's live-user counter has one to give back, and the final
/// bookkeeping settlement stays within its widths.
pub open spec fn close_user_allowed(v: Vault, u: User, now: u64) -> bool {
    &&& v.status == VaultStatus::Initialized
    &&& u.reward_earned_pending == 0
    &&& v.user_count >= 1
    &&& settle_fits(u, v.reward_rate, now)
}

/// The error CloseUser returns when it does not succeed, checks in the order
/// the handler makes them.
pub open spec fn close_user_error(v: Vault, u: User, now: u64) -> ErrorCode {
    if v.status != VaultStatus::Initialized {
        ErrorCode::VaultNotReady
    } else if u.reward_earned_pending > 0 {
        ErrorCode::EarnedPendingExist
    } else {
        ErrorCode::Overflow
    }
}

/// Tears down the user's record: rejected while any claimable reward is
/// still pending, for any nonzero amount. Lowers the vault's live-user
/// counter and runs one final settlement — numerically a no-op when nothing
/// is staked, but it advances the bookkeeping consistently before the
/// storage collaborator releases the record.
///
/// The caller has been authenticated as `user.key` by the substrate.
pub fn close_user(vault: &mut Vault, user: &mut User, now: u64) -> (r: Result<(), ErrorCode>)
    requires
        old(vault).wf(),
        old(user).wf(),
        old(user).vault == old(vault).key,
    ensures
        final(vault).wf(),
        final(user).wf(),
        r is Ok <==> close_user_allowed(*old(vault), *old(user), now),
        r matches Err(e) ==> *final(vault) == *old(vault) && *final(user) == *old(user) && e
            == close_user_error(*old(vault), *old(user), now),
        r is Ok ==> {
            &&& *final(user) == settled(*old(user), old(vault).reward_rate, now)
            &&& final(vault).user_count == old(vault).user_count - 1
            &&& *final(vault) == (Vault { user_count: final(vault).user_count, ..*old(vault) })
        },
{
    if vault.status != VaultStatus::Initialized {
        return Err(ErrorCode::VaultNotReady);
    }
    if user.reward_earned_pending > 0 {
        return Err(ErrorCode::EarnedPendingExist);
    }
    let new_user_count: u64 = match vault.user_count.checked_sub(1) {
        Some(c) => c,
        None => {
            return Err(ErrorCode::Overflow);
        },
    };
    match update_rewards(vault.reward_rate, user, now) {
        Ok(()) => {},
        Err(e) => {
            return Err(e);
        },
    }
    vault.user_count = new_user_count;
    Ok(())
}

} // verus!
