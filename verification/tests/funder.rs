use token_staking::constant::{EMPTY_IDENTITY, MAX_FUNDER_LIMIT};
use token_staking::instructions::{authroize_funder, close_vault, create_vault, unauthorize_funder};
use token_staking::state::{ErrorCode, Vault};

const AUTHORITY: u64 = 1;

fn ready_vault() -> Vault {
    create_vault(11, AUTHORITY, 0, 100, 4)
}

#[test]
fn authorize_rejects_the_authority_itself() {
    let mut v = ready_vault();
    let r = authroize_funder(&mut v, AUTHORITY, AUTHORITY);
    assert_eq!(r, Err(ErrorCode::OwnerCanNotBeFunder));
    assert_eq!(v.funders, vec![EMPTY_IDENTITY; MAX_FUNDER_LIMIT]);
}

#[test]
fn authorize_rejects_a_second_authorization() {
    let mut v = ready_vault();
    assert_eq!(authroize_funder(&mut v, AUTHORITY, 7), Ok(()));
    assert_eq!(authroize_funder(&mut v, AUTHORITY, 7), Err(ErrorCode::FunderAlreadyAuthorized));
}

#[test]
fn authorize_rejects_a_caller_other_than_the_authority() {
    let mut v = ready_vault();
    let r = authroize_funder(&mut v, 9, 7);
    assert_eq!(r, Err(ErrorCode::Unauthorized));
}

#[test]
fn authorize_rejects_a_vault_that_is_not_ready() {
    let mut v = ready_vault();
    assert_eq!(close_vault(&mut v, AUTHORITY), Ok(()));
    assert_eq!(authroize_funder(&mut v, AUTHORITY, 7), Err(ErrorCode::VaultNotReady));
}

#[test]
fn authorize_succeeds_up_to_capacity_and_the_next_fails() {
    let mut v = ready_vault();
    for funder in 0..MAX_FUNDER_LIMIT as u64 {
        assert_eq!(authroize_funder(&mut v, AUTHORITY, 100 + funder), Ok(()));
    }
    let overflowing = 100 + MAX_FUNDER_LIMIT as u64;
    assert_eq!(authroize_funder(&mut v, AUTHORITY, overflowing), Err(ErrorCode::FunderAlreadyFull));
}

#[test]
fn capacity_scenario_with_slot_reuse() {
    // Capacity is three: A, B, C fill the registry, D is rejected; freeing
    // B's slot lets D in, in B's former position.
    let (a, b, c, d) = (2, 3, 4, 5);
    let mut v = ready_vault();
    assert_eq!(authroize_funder(&mut v, AUTHORITY, a), Ok(()));
    assert_eq!(authroize_funder(&mut v, AUTHORITY, b), Ok(()));
    assert_eq!(authroize_funder(&mut v, AUTHORITY, c), Ok(()));
    assert_eq!(v.funders, vec![a, b, c]);
    assert_eq!(authroize_funder(&mut v, AUTHORITY, d), Err(ErrorCode::FunderAlreadyFull));
    assert_eq!(unauthorize_funder(&mut v, AUTHORITY, b), Ok(()));
    assert_eq!(v.funders, vec![a, EMPTY_IDENTITY, c]);
    assert_eq!(authroize_funder(&mut v, AUTHORITY, d), Ok(()));
    assert_eq!(v.funders, vec![a, d, c]);
}

#[test]
fn unauthorize_rejects_an_absent_identity() {
    let mut v = ready_vault();
    assert_eq!(unauthorize_funder(&mut v, AUTHORITY, 7), Err(ErrorCode::FunderDoesNotExist));
}

#[test]
fn unauthorize_rejects_a_caller_other_than_the_authority() {
    let mut v = ready_vault();
    assert_eq!(authroize_funder(&mut v, AUTHORITY, 7), Ok(()));
    assert_eq!(unauthorize_funder(&mut v, 9, 7), Err(ErrorCode::Unauthorized));
}

#[test]
fn authorize_takes_the_first_free_slot() {
    let mut v = ready_vault();
    assert_eq!(authroize_funder(&mut v, AUTHORITY, 2), Ok(()));
    assert_eq!(authroize_funder(&mut v, AUTHORITY, 3), Ok(()));
    assert_eq!(unauthorize_funder(&mut v, AUTHORITY, 2), Ok(()));
    assert_eq!(authroize_funder(&mut v, AUTHORITY, 4), Ok(()));
    assert_eq!(v.funders, vec![4, 3, EMPTY_IDENTITY]);
}
