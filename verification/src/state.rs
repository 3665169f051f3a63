use crate::constant::{EMPTY_IDENTITY, MAX_FUNDER_LIMIT, MAX_MINT_LIMIT};
use vstd::prelude::*;

verus! {

/// Lifecycle status of a vault. Only an `Initialized` vault accepts funder
/// changes, user creation, staking, claiming, and teardown of users.
#[derive(Clone, Copy, PartialEq, Eq, Structural, Debug)]
pub enum VaultStatus {
    Uninitialized,
    Initialized,
    Closed,
}

/// Every way an operation can be rejected. An error aborts the whole
/// operation: the handler leaves the vault and the user exactly as they were.
#[derive(Clone, Copy, PartialEq, Eq, Structural, Debug)]
pub enum ErrorCode {
    /// The vault is not `Initialized`.
    VaultNotReady,
    /// CloseVault was attempted while users still reference the vault.
    VaultNotEmpty,
    /// Stake or Unstake was attempted on a vault that is not `Initialized`.
    CanNotStake,
    /// The user's staked-record list is already at `MAX_MINT_LIMIT`.
    MaxStakeCountReached,
    /// The funder registry has no empty slot left.
    FunderAlreadyFull,
    /// The record is already in the user's staked-record list.
    AlreadyStakedAccount,
    /// The identity is already in the funder registry.
    FunderAlreadyAuthorized,
    /// The identity is not in the funder registry.
    FunderDoesNotExist,
    /// The vault authority may not be registered as a funder.
    OwnerCanNotBeFunder,
    /// CloseUser was attempted while a claimable reward is still pending.
    EarnedPendingExist,
    /// The vault's reward pool holds less than the amount being claimed.
    InsufficientRewardPool,
    /// A checked addition, subtraction, multiplication, or division in a
    /// counter or in the accrual computation did not fit its width.
    Overflow,
    /// The caller is neither the vault authority nor otherwise permitted.
    Unauthorized,
    /// Unstake named a record that is not in the user's staked-record list.
    AccountNotStaked,
}

/// Global pool state shared by all users of one staking pool.
#[verifier::ext_equal]
#[derive(Debug)]
pub struct Vault {
    /// Address of this vault's record, assigned by the storage collaborator;
    /// every user of the vault carries it as a back-reference.
    pub key: u64,
    /// Identity permitted to manage funders and close the vault; immutable
    /// after creation.
    pub authority: u64,
    pub status: VaultStatus,
    /// Fixed-capacity funder registry: always `MAX_FUNDER_LIMIT` slots, an
    /// empty slot holding `EMPTY_IDENTITY`, no duplicates, never the
    /// authority.
    pub funders: Vec<u64>,
    /// Number of live users referencing this vault.
    pub user_count: u64,
    /// Sum of `mint_staked_count` over all live users of this vault.
    pub staked_count: u64,
    /// Accrual rate, fixed-point with precision `CALC_PRECISION`; recomputed
    /// by Fund from the amount supplied and the vault's configuration.
    pub reward_rate: u128,
    /// Configuration set at creation, immutable here.
    pub reward_duration: u64,
    pub stake_token_count: u32,
    pub reward_bump: u8,
}

/// Per-participant state within one vault.
#[verifier::ext_equal]
#[derive(Debug)]
pub struct User {
    /// Owning identity; immutable after creation. The substrate authenticates
    /// that every mutating operation's caller controls this identity.
    pub key: u64,
    /// Back-reference: the `key` of the one vault this user belongs to.
    pub vault: u64,
    /// Staked-record identifiers, at most `MAX_MINT_LIMIT`, no duplicates.
    pub mint_accounts: Vec<u64>,
    /// Kept in lock-step with `mint_accounts.len()`.
    pub mint_staked_count: u32,
    /// Cumulative total ever claimed.
    pub reward_earned_claimed: u64,
    /// Reward accrued but not yet claimed.
    pub reward_earned_pending: u64,
    /// Timestamp of the most recent settlement; never moves backward.
    pub last_stake_time: u64,
}

/// `i` is the position of the first occurrence of `x` in `s`.
pub open spec fn is_first_at(s: Seq<u64>, x: u64, i: int) -> bool {
    &&& 0 <= i < s.len()
    &&& s[i] == x
    &&& forall|j: int| 0 <= j < i ==> s[j] != x
}

impl Vault {
    /// Well-formedness of the funder registry: full capacity, no duplicate
    /// live entries, and the authority never appears.
    pub open spec fn wf(self) -> bool {
        &&& self.funders@.len() == MAX_FUNDER_LIMIT
        &&& forall|i: int, j: int|
            0 <= i < j < self.funders@.len() && self.funders@[i] != EMPTY_IDENTITY
                ==> self.funders@[i] != self.funders@[j]
        &&& forall|i: int|
            0 <= i < self.funders@.len() && self.funders@[i] != EMPTY_IDENTITY
                ==> self.funders@[i] != self.authority
    }

    /// `id` occupies a slot of the funder registry and is a live identity.
    pub open spec fn is_live_funder(self, id: u64) -> bool {
        id != EMPTY_IDENTITY && self.funders@.contains(id)
    }
}

impl User {
    /// Well-formedness: the stored count is in lock-step with the list, the
    /// list is within capacity, and it holds no duplicates.
    pub open spec fn wf(self) -> bool {
        &&& self.mint_staked_count == self.mint_accounts@.len()
        &&& self.mint_accounts@.len() <= MAX_MINT_LIMIT
        &&& forall|i: int, j: int|
            0 <= i < j < self.mint_accounts@.len()
                ==> self.mint_accounts@[i] != self.mint_accounts@[j]
    }
}

/// The user belongs to the vault, and the vault's aggregate staked count can
/// absorb the user's share. Both hold in every reachable state: the aggregate
/// is the sum of `mint_staked_count` over the vault's live users.
pub open spec fn paired(v: Vault, u: User) -> bool {
    u.vault == v.key && v.staked_count >= u.mint_staked_count
}

} // verus!
