//! A staking-and-reward accounting engine.
//!
//! An authority creates a staking pool (a vault), authorizes a bounded set of
//! funders who top up its reward pool, and participants (users) place
//! transferable asset records into custody, accrue rewards proportional to
//! time staked and amount staked, claim those rewards, and tear down per-user
//! and per-vault state once it is empty.
//!
//! The crate holds the bookkeeping core: the reward-accrual formula, the
//! bounded funder registry, the bounded per-user stake list, and the handlers
//! for every operation, each with a contract that pins down exactly when it
//! succeeds, which error it returns otherwise, and what state it leaves
//! behind. The ledger substrate that persists records, authenticates callers,
//! moves asset custody, and supplies the clock is an external collaborator:
//! handlers take its observations (the current timestamp, a custody balance)
//! as plain arguments and hand back the amounts it must transfer.

pub mod constant;
pub mod instructions;
pub mod laws;
pub mod state;
pub mod utils;
