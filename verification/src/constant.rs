use vstd::prelude::*;

verus! {

/// Fixed-point precision of the vault's reward-rate parameter: a stored rate
/// `r` means `r / CALC_PRECISION` reward units per staked record per second.
pub const CALC_PRECISION: u128 = 1000000;

/// Capacity of a user's staked-record list.
pub const MAX_MINT_LIMIT: usize = 10;

/// Capacity of a vault's funder registry.
pub const MAX_FUNDER_LIMIT: usize = 3;

/// Sentinel identity: marks an empty slot in the funder registry. Live
/// identities handed to the engine are never this value.
pub const EMPTY_IDENTITY: u64 = 0;

} // verus!
