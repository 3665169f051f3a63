use crate::constant::CALC_PRECISION;
use crate::state::{ErrorCode, Vault, VaultStatus};
use vstd::prelude::*;

verus! {

/// The rate computation of Fund stays within its widths: the amount scaled
/// to fixed point fits the 128-bit accumulator, and neither divisor is zero.
pub open spec fn fund_fits(v: Vault, amount: u64) -> bool {
    &&& amount * CALC_PRECISION <= u128::MAX
    &&& v.reward_duration != 0
    &&& v.stake_token_count != 0
}

/// The reward rate a Fund of `amount` sets: the amount, scaled to fixed
/// point, spread evenly over the configured reward duration and across the
/// configured number of stake tokens — each staked record then earns
/// `rate / CALC_PRECISION` units per second.
pub open spec fn fund_rate(v: Vault, amount: u64) -> nat {
    amount as nat * CALC_PRECISION as nat / v.reward_duration as nat / v.stake_token_count as nat
}

/// Fund succeeds: the vault is ready, the caller is its authority or a
/// registered funder, and the rate computation stays within its widths.
pub open spec fn fund_allowed(v: Vault, caller: u64, amount: u64) -> bool {
    &&& v.status == VaultStatus::Initialized
    &&& caller == v.authority || v.is_live_funder(caller)
    &&& fund_fits(v, amount)
}

/// The error Fund returns when it does not succeed, checks in the order the
/// handler makes them.
pub open spec fn fund_error(v: Vault, caller: u64, amount: u64) -> ErrorCode {
    if v.status != VaultStatus::Initialized {
        ErrorCode::VaultNotReady
    } else if caller != v.authority && !v.is_live_funder(caller) {
        ErrorCode::Unauthorized
    } else {
        ErrorCode::Overflow
    }
}

/// Tops up the reward pool: recomputes the vault's reward rate so that
/// `amount` is distributed evenly per stake token over the configured reward
/// duration. Only the authority or a registered funder may call it.
///
/// The custody collaborator moves `amount` into the vault's reward pool when
/// this succeeds; on an error nothing changes and nothing may move.
pub fn fund(vault: &mut Vault, caller: u64, amount: u64) -> (r: Result<(), ErrorCode>)
    requires
        old(vault).wf(),
    ensures
        final(vault).wf(),
        r is Ok <==> fund_allowed(*old(vault), caller, amount),
        r matches Err(e) ==> *final(vault) == *old(vault) && e == fund_error(
            *old(vault),
            caller,
            amount,
        ),
        r is Ok ==> final(vault).reward_rate == fund_rate(*old(vault), amount) && *final(vault)
            == (Vault { reward_rate: final(vault).reward_rate, ..*old(vault) }),
{
    if vault.status != VaultStatus::Initialized {
        return Err(ErrorCode::VaultNotReady);
    }
    let authorized: bool = if caller == vault.authority {
        true
    } else if caller == crate::constant::EMPTY_IDENTITY {
        false
    } else {
        crate::utils::contains_id(&vault.funders, caller)
    };
    if !authorized {
        return Err(ErrorCode::Unauthorized);
    }
    let scaled: u128 = match (amount as u128).checked_mul(CALC_PRECISION) {
        Some(s) => s,
        None => {
            return Err(ErrorCode::Overflow);
        },
    };
    let per_duration: u128 = match scaled.checked_div(vault.reward_duration as u128) {
        Some(p) => p,
        None => {
            return Err(ErrorCode::Overflow);
        },
    };
    let rate: u128 = match per_duration.checked_div(vault.stake_token_count as u128) {
        Some(p) => p,
        None => {
            return Err(ErrorCode::Overflow);
        },
    };
    vault.reward_rate = rate;
    Ok(())
}

} // verus!
