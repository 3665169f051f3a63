use crate::constant::{EMPTY_IDENTITY, MAX_FUNDER_LIMIT};
use crate::state::{Vault, VaultStatus};
use vstd::prelude::*;

verus! {

/// Initializes a fresh vault: status `Initialized`, the given authority and
/// configuration, an empty funder registry at full capacity, and both
/// aggregate counters at zero.
///
/// The storage collaborator assigns `key` (the vault record's address) and
/// guarantees the record did not exist before, so creation itself cannot
/// fail. The reward rate starts at zero — no reward accrues until the first
/// Fund supplies an amount to distribute.
pub fn create_vault(
    key: u64,
    authority: u64,
    reward_bump: u8,
    reward_duration: u64,
    stake_token_count: u32,
) -> (v: Vault)
    ensures
        v.wf(),
        v.key == key,
        v.authority == authority,
        v.status == VaultStatus::Initialized,
        v.funders@.len() == MAX_FUNDER_LIMIT,
        forall|i: int| 0 <= i < v.funders@.len() ==> v.funders@[i] == EMPTY_IDENTITY,
        v.user_count == 0,
        v.staked_count == 0,
        v.reward_rate == 0,
        v.reward_duration == reward_duration,
        v.stake_token_count == stake_token_count,
        v.reward_bump == reward_bump,
{
    let funders: Vec<u64> = vec![EMPTY_IDENTITY; MAX_FUNDER_LIMIT];
    Vault {
        key,
        authority,
        status: VaultStatus::Initialized,
        funders,
        user_count: 0,
        staked_count: 0,
        reward_rate: 0,
        reward_duration,
        stake_token_count,
        reward_bump,
    }
}

} // verus!
