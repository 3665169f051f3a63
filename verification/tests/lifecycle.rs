use token_staking::instructions::{
    authroize_funder, claim, close_user, close_vault, create_user, create_vault, fund, stake,
    unstake,
};
use token_staking::state::{ErrorCode, Vault, VaultStatus};

const AUTHORITY: u64 = 1;
const STAKER: u64 = 5;

fn funded_vault() -> Vault {
    // 800 * 10^6 / 100 / 4: two whole reward units per record per second.
    let mut v = create_vault(11, AUTHORITY, 0, 100, 4);
    fund(&mut v, AUTHORITY, 800).unwrap();
    v
}

#[test]
fn create_vault_starts_ready_and_empty() {
    let v = create_vault(11, AUTHORITY, 3, 100, 4);
    assert_eq!(v.status, VaultStatus::Initialized);
    assert_eq!(v.user_count, 0);
    assert_eq!(v.staked_count, 0);
    assert_eq!(v.reward_rate, 0);
    assert_eq!(v.reward_bump, 3);
    assert!(v.funders.iter().all(|f| *f == 0));
}

#[test]
fn fund_sets_the_rate_from_amount_duration_and_token_count() {
    let v = funded_vault();
    assert_eq!(v.reward_rate, 2_000_000);
}

#[test]
fn fund_accepts_a_registered_funder_and_rejects_a_stranger() {
    let mut v = create_vault(11, AUTHORITY, 0, 100, 4);
    assert_eq!(fund(&mut v, 9, 800), Err(ErrorCode::Unauthorized));
    assert_eq!(authroize_funder(&mut v, AUTHORITY, 9), Ok(()));
    assert_eq!(fund(&mut v, 9, 400), Ok(()));
    assert_eq!(v.reward_rate, 1_000_000);
}

#[test]
fn fund_rejects_a_vault_that_is_not_ready() {
    let mut v = create_vault(11, AUTHORITY, 0, 100, 4);
    close_vault(&mut v, AUTHORITY).unwrap();
    assert_eq!(fund(&mut v, AUTHORITY, 800), Err(ErrorCode::VaultNotReady));
}

#[test]
fn create_user_counts_into_the_vault() {
    let mut v = funded_vault();
    let u = create_user(&mut v, STAKER, 40).unwrap();
    assert_eq!(v.user_count, 1);
    assert_eq!(u.key, STAKER);
    assert_eq!(u.vault, 11);
    assert_eq!(u.mint_staked_count, 0);
    assert_eq!(u.reward_earned_pending, 0);
    assert_eq!(u.reward_earned_claimed, 0);
    assert_eq!(u.last_stake_time, 40);
}

#[test]
fn create_user_rejects_a_vault_that_is_not_ready() {
    let mut v = create_vault(11, AUTHORITY, 0, 100, 4);
    close_vault(&mut v, AUTHORITY).unwrap();
    assert_eq!(create_user(&mut v, STAKER, 0).unwrap_err(), ErrorCode::VaultNotReady);
}

#[test]
fn claim_pays_the_settled_amount_and_resets_pending() {
    let mut v = funded_vault();
    let mut u = create_user(&mut v, STAKER, 0).unwrap();
    stake(&mut v, &mut u, 71, 1, 0).unwrap();
    // 10 seconds on one record at two units per second.
    let r = claim(&v, &mut u, 1_000, 10);
    assert_eq!(r, Ok(20));
    assert_eq!(u.reward_earned_pending, 0);
    assert_eq!(u.reward_earned_claimed, 20);
    assert_eq!(u.last_stake_time, 10);
}

#[test]
fn claim_with_nothing_pending_is_a_transfer_of_zero() {
    let mut v = funded_vault();
    let mut u = create_user(&mut v, STAKER, 0).unwrap();
    let r = claim(&v, &mut u, 1_000, 25);
    assert_eq!(r, Ok(0));
    assert_eq!(u.reward_earned_claimed, 0);
    assert_eq!(u.reward_earned_pending, 0);
}

#[test]
fn claim_rejects_a_pool_that_cannot_cover_the_amount() {
    let mut v = funded_vault();
    let mut u = create_user(&mut v, STAKER, 0).unwrap();
    stake(&mut v, &mut u, 71, 1, 0).unwrap();
    let r = claim(&v, &mut u, 19, 10);
    assert_eq!(r, Err(ErrorCode::InsufficientRewardPool));
    assert_eq!(u.reward_earned_claimed, 0);
    assert_eq!(u.last_stake_time, 0);
}

#[test]
fn close_user_fails_for_any_nonzero_pending_reward() {
    let mut v = funded_vault();
    let mut u = create_user(&mut v, STAKER, 0).unwrap();
    stake(&mut v, &mut u, 71, 1, 0).unwrap();
    unstake(&mut v, &mut u, 71, 10).unwrap();
    assert_eq!(u.reward_earned_pending, 20);
    assert_eq!(close_user(&mut v, &mut u, 10), Err(ErrorCode::EarnedPendingExist));
    assert_eq!(v.user_count, 1);
    let mut trickle = create_user(&mut v, 6, 0).unwrap();
    stake(&mut v, &mut trickle, 81, 1, 0).unwrap();
    unstake(&mut v, &mut trickle, 81, 1).unwrap();
    assert_eq!(trickle.reward_earned_pending, 2);
    assert_eq!(close_user(&mut v, &mut trickle, 1), Err(ErrorCode::EarnedPendingExist));
}

#[test]
fn close_user_succeeds_once_pending_is_exactly_zero() {
    let mut v = funded_vault();
    let mut u = create_user(&mut v, STAKER, 0).unwrap();
    stake(&mut v, &mut u, 71, 1, 0).unwrap();
    unstake(&mut v, &mut u, 71, 10).unwrap();
    claim(&v, &mut u, 1_000, 10).unwrap();
    assert_eq!(u.reward_earned_pending, 0);
    assert_eq!(close_user(&mut v, &mut u, 10), Ok(()));
    assert_eq!(v.user_count, 0);
}

#[test]
fn close_vault_refuses_while_users_remain_then_closes() {
    let mut v = funded_vault();
    let mut u = create_user(&mut v, STAKER, 0).unwrap();
    assert_eq!(close_vault(&mut v, AUTHORITY), Err(ErrorCode::VaultNotEmpty));
    assert_eq!(close_vault(&mut v, 9), Err(ErrorCode::Unauthorized));
    close_user(&mut v, &mut u, 0).unwrap();
    assert_eq!(close_vault(&mut v, AUTHORITY), Ok(()));
    assert_eq!(v.status, VaultStatus::Closed);
    assert_eq!(close_vault(&mut v, AUTHORITY), Err(ErrorCode::VaultNotReady));
}

#[test]
fn every_rejection_leaves_the_state_exactly_as_it_was() {
    let mut v = funded_vault();
    let mut u = create_user(&mut v, STAKER, 0).unwrap();
    stake(&mut v, &mut u, 71, 1, 0).unwrap();
    let staked_before = v.staked_count;
    let accounts_before = u.mint_accounts.clone();
    assert!(stake(&mut v, &mut u, 71, 1, 5).is_err());
    assert!(unstake(&mut v, &mut u, 99, 5).is_err());
    assert!(claim(&v, &mut u, 0, 5).is_err());
    assert_eq!(v.staked_count, staked_before);
    assert_eq!(u.mint_accounts, accounts_before);
    assert_eq!(u.last_stake_time, 0);
    assert_eq!(u.reward_earned_pending, 0);
}
