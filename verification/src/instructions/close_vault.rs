use crate::state::{ErrorCode, Vault, VaultStatus};
use vstd::prelude::*;

verus! {

/// CloseVault succeeds: the vault is ready, the caller is its authority, and
/// no live user references it any more.
pub open spec fn close_vault_allowed(v: Vault, caller: u64) -> bool {
    &&& v.status == VaultStatus::Initialized
    &&& caller == v.authority
    &&& v.user_count == 0
}

/// The error CloseVault returns when it does not succeed, checks in the
/// order the handler makes them.
pub open spec fn close_vault_error(v: Vault, caller: u64) -> ErrorCode {
    if v.status != VaultStatus::Initialized {
        ErrorCode::VaultNotReady
    } else if caller != v.authority {
        ErrorCode::Unauthorized
    } else {
        ErrorCode::VaultNotEmpty
    }
}

/// Tears down the vault: only its authority may call it, and only once every
/// user record has been closed. Transitions the status to `Closed`; the
/// storage collaborator then releases the vault's backing record.
pub fn close_vault(vault: &mut Vault, caller: u64) -> (r: Result<(), ErrorCode>)
    requires
        old(vault).wf(),
    ensures
        final(vault).wf(),
        r is Ok <==> close_vault_allowed(*old(vault), caller),
        r matches Err(e) ==> *final(vault) == *old(vault) && e == close_vault_error(
            *old(vault),
            caller,
        ),
        r is Ok ==> final(vault).status == VaultStatus::Closed && *final(vault) == (Vault {
            status: VaultStatus::Closed,
            ..*old(vault)
        }),
{
    if vault.status != VaultStatus::Initialized {
        return Err(ErrorCode::VaultNotReady);
    }
    if caller != vault.authority {
        return Err(ErrorCode::Unauthorized);
    }
    if vault.user_count != 0 {
        return Err(ErrorCode::VaultNotEmpty);
    }
    vault.status = VaultStatus::Closed;
    Ok(())
}

} // verus!
