use crate::constant::EMPTY_IDENTITY;
use crate::state::{is_first_at, ErrorCode, Vault, VaultStatus};
use crate::utils::{contains_id, find_first};
use vstd::prelude::*;

verus! {

/// AuthorizeFunder succeeds: the vault is ready, the caller is its authority,
/// the candidate is neither the authority nor already registered, and an
/// empty slot is free.
pub open spec fn authorize_allowed(v: Vault, caller: u64, funder: u64) -> bool {
    &&& v.status == VaultStatus::Initialized
    &&& caller == v.authority
    &&& funder != v.authority
    &&& !v.funders@.contains(funder)
    &&& v.funders@.contains(EMPTY_IDENTITY)
}

/// The error AuthorizeFunder returns when it does not succeed, checks in the
/// order the handler makes them.
pub open spec fn authorize_error(v: Vault, caller: u64, funder: u64) -> ErrorCode {
    if v.status != VaultStatus::Initialized {
        ErrorCode::VaultNotReady
    } else if caller != v.authority {
        ErrorCode::Unauthorized
    } else if funder == v.authority {
        ErrorCode::OwnerCanNotBeFunder
    } else if v.funders@.contains(funder) {
        ErrorCode::FunderAlreadyAuthorized
    } else {
        ErrorCode::FunderAlreadyFull
    }
}

/// UnauthorizeFunder succeeds: the vault is ready, the caller is its
/// authority, and the identity occupies a slot of the registry.
pub open spec fn unauthorize_allowed(v: Vault, caller: u64, funder: u64) -> bool {
    &&& v.status == VaultStatus::Initialized
    &&& caller == v.authority
    &&& v.funders@.contains(funder)
}

/// The error UnauthorizeFunder returns when it does not succeed.
pub open spec fn unauthorize_error(v: Vault, caller: u64, funder: u64) -> ErrorCode {
    if v.status != VaultStatus::Initialized {
        ErrorCode::VaultNotReady
    } else if caller != v.authority {
        ErrorCode::Unauthorized
    } else {
        ErrorCode::FunderDoesNotExist
    }
}

/// Registers `funder` in the first empty slot of the vault's funder registry,
/// first-fit. The vault authority may call this, and may never register its
/// own identity; a registered identity cannot be registered twice; a full
/// registry rejects the request.
pub fn authroize_funder(vault: &mut Vault, caller: u64, funder: u64) -> (r: Result<(), ErrorCode>)
    requires
        old(vault).wf(),
    ensures
        final(vault).wf(),
        r is Ok <==> authorize_allowed(*old(vault), caller, funder),
        r matches Err(e) ==> *final(vault) == *old(vault) && e == authorize_error(
            *old(vault),
            caller,
            funder,
        ),
        r is Ok ==> exists|i: int|
            is_first_at(old(vault).funders@, EMPTY_IDENTITY, i) && final(vault).funders@
                == old(vault).funders@.update(i, funder),
        r is Ok ==> *final(vault) == (Vault { funders: final(vault).funders, ..*old(vault) }),
{
    if vault.status != VaultStatus::Initialized {
        return Err(ErrorCode::VaultNotReady);
    }
    if caller != vault.authority {
        return Err(ErrorCode::Unauthorized);
    }
    if funder == vault.authority {
        return Err(ErrorCode::OwnerCanNotBeFunder);
    }
    if contains_id(&vault.funders, funder) {
        return Err(ErrorCode::FunderAlreadyAuthorized);
    }
    match find_first(&vault.funders, EMPTY_IDENTITY) {
        Some(idx) => {
            vault.funders[idx] = funder;
            proof {
                assert(old(vault).funders@.contains(EMPTY_IDENTITY)) by {
                    assert(old(vault).funders@[idx as int] == EMPTY_IDENTITY);
                }
                assert forall|j: int| 0 <= j < old(vault).funders@.len() implies old(
                    vault,
                ).funders@[j] != funder by {
                    if old(vault).funders@[j] == funder {
                        assert(old(vault).funders@.contains(funder));
                    }
                }
                assert(vault.wf());
            }
            Ok(())
        },
        None => Err(ErrorCode::FunderAlreadyFull),
    }
}

/// Removes `funder` from the vault's funder registry by overwriting its slot
/// with the empty-slot sentinel. The slot may be reused by a later
/// AuthorizeFunder.
pub fn unauthorize_funder(vault: &mut Vault, caller: u64, funder: u64) -> (r: Result<
    (),
    ErrorCode,
>)
    requires
        old(vault).wf(),
    ensures
        final(vault).wf(),
        r is Ok <==> unauthorize_allowed(*old(vault), caller, funder),
        r matches Err(e) ==> *final(vault) == *old(vault) && e == unauthorize_error(
            *old(vault),
            caller,
            funder,
        ),
        r is Ok ==> exists|i: int|
            is_first_at(old(vault).funders@, funder, i) && final(vault).funders@ == old(
                vault,
            ).funders@.update(i, EMPTY_IDENTITY),
        r is Ok ==> *final(vault) == (Vault { funders: final(vault).funders, ..*old(vault) }),
{
    if vault.status != VaultStatus::Initialized {
        return Err(ErrorCode::VaultNotReady);
    }
    if caller != vault.authority {
        return Err(ErrorCode::Unauthorized);
    }
    match find_first(&vault.funders, funder) {
        Some(idx) => {
            vault.funders[idx] = EMPTY_IDENTITY;
            proof {
                assert(old(vault).funders@.contains(funder)) by {
                    assert(old(vault).funders@[idx as int] == funder);
                }
                assert(vault.wf());
            }
            Ok(())
        },
        None => Err(ErrorCode::FunderDoesNotExist),
    }
}

} // verus!
