use crate::constant::EMPTY_IDENTITY;
use crate::instructions::control_funder::{authorize_allowed, unauthorize_allowed};
use crate::state::{is_first_at, User, Vault};
use crate::utils::{earned_amount, elapsed_u64, settle_fits, settled};
use vstd::prelude::*;

verus! {

/// Sum of `mint_staked_count` over a sequence of users: the value a vault's
/// `staked_count` keeps in step with, taken over its live users.
pub open spec fn staked_sum(users: Seq<User>) -> int
    decreases users.len(),
{
    if users.len() == 0 {
        0
    } else {
        users[0].mint_staked_count + staked_sum(users.drop_first())
    }
}

/// Replacing one user changes the sum by the difference of the two counts.
pub proof fn lemma_staked_sum_update(users: Seq<User>, i: int, u: User)
    requires
        0 <= i < users.len(),
    ensures
        staked_sum(users.update(i, u)) == staked_sum(users) - users[i].mint_staked_count
            + u.mint_staked_count,
    decreases users.len(),
{
    if i == 0 {
        assert(users.update(0, u).drop_first() =~= users.drop_first());
    } else {
        assert(users.update(i, u).drop_first() =~= users.drop_first().update(i - 1, u));
        lemma_staked_sum_update(users.drop_first(), i - 1, u);
    }
}

/// Appending a user adds that user's count to the sum.
pub proof fn lemma_staked_sum_push(users: Seq<User>, u: User)
    ensures
        staked_sum(users.push(u)) == staked_sum(users) + u.mint_staked_count,
    decreases users.len(),
{
    if users.len() == 0 {
        assert(users.push(u)[0] == u);
        assert(users.push(u).drop_first().len() == 0);
        assert(staked_sum(users.push(u).drop_first()) == 0);
        assert(staked_sum(users) == 0);
        assert(staked_sum(users.push(u)) == u.mint_staked_count + staked_sum(
            users.push(u).drop_first(),
        ));
    } else {
        assert(users.push(u).drop_first() =~= users.drop_first().push(u));
        lemma_staked_sum_push(users.drop_first(), u);
    }
}

/// Removing a user takes that user's count out of the sum.
pub proof fn lemma_staked_sum_remove(users: Seq<User>, i: int)
    requires
        0 <= i < users.len(),
    ensures
        staked_sum(users.remove(i)) == staked_sum(users) - users[i].mint_staked_count,
    decreases users.len(),
{
    if i == 0 {
        assert(users.remove(0) =~= users.drop_first());
    } else {
        assert(users.remove(i).drop_first() =~= users.drop_first().remove(i - 1));
        lemma_staked_sum_remove(users.drop_first(), i - 1);
    }
}

/// Aggregate consistency across Stake: where a vault's `staked_count` equals
/// the sum over its live users, a successful Stake by the user at position
/// `i` — which raises that user's count and the vault's counter by one each —
/// leaves the counter equal to the sum over the updated users.
pub proof fn lemma_stake_keeps_staked_sum(users: Seq<User>, i: int, v0: Vault, v1: Vault, u1: User)
    requires
        0 <= i < users.len(),
        v0.staked_count == staked_sum(users),
        v1.staked_count == v0.staked_count + 1,
        u1.mint_staked_count == users[i].mint_staked_count + 1,
    ensures
        v1.staked_count == staked_sum(users.update(i, u1)),
{
    lemma_staked_sum_update(users, i, u1);
}

/// Aggregate consistency across Unstake: a successful Unstake by the user at
/// position `i` lowers that user's count and the vault's counter by one each,
/// and the counter again equals the sum over the updated users.
pub proof fn lemma_unstake_keeps_staked_sum(
    users: Seq<User>,
    i: int,
    v0: Vault,
    v1: Vault,
    u1: User,
)
    requires
        0 <= i < users.len(),
        v0.staked_count == staked_sum(users),
        v1.staked_count == v0.staked_count - 1,
        u1.mint_staked_count == users[i].mint_staked_count - 1,
    ensures
        v1.staked_count == staked_sum(users.update(i, u1)),
{
    lemma_staked_sum_update(users, i, u1);
}

/// Aggregate consistency across CreateUser: a fresh user joins with nothing
/// staked and the vault's counter untouched, so the counter equals the sum
/// over the users with the fresh one appended.
pub proof fn lemma_create_user_keeps_staked_sum(users: Seq<User>, v: Vault, fresh: User)
    requires
        v.staked_count == staked_sum(users),
        fresh.mint_staked_count == 0,
    ensures
        v.staked_count == staked_sum(users.push(fresh)),
{
    lemma_staked_sum_push(users, fresh);
}

/// Aggregate consistency across CloseUser: closing a user that has nothing
/// staked leaves the vault's counter equal to the sum over the remaining
/// users. A user that still holds staked records is not covered: CloseUser
/// does not touch `staked_count`, so closing such a user would detach the
/// counter from the live sum.
pub proof fn lemma_close_user_keeps_staked_sum(users: Seq<User>, i: int, v: Vault)
    requires
        0 <= i < users.len(),
        v.staked_count == staked_sum(users),
        users[i].mint_staked_count == 0,
    ensures
        v.staked_count == staked_sum(users.remove(i)),
{
    lemma_staked_sum_remove(users, i);
}

/// Idempotence of settlement at a fixed timestamp: settling a user twice at
/// the same `now` moves nothing the second time — the second settlement sees
/// zero elapsed time, so the pending reward and the settlement clock stay
/// exactly where the first settlement put them.
pub proof fn lemma_settle_idempotent(u: User, reward_rate: u128, now: u64)
    requires
        settle_fits(u, reward_rate, now),
    ensures
        settle_fits(settled(u, reward_rate, now), reward_rate, now),
        settled(settled(u, reward_rate, now), reward_rate, now) == settled(u, reward_rate, now),
{
    let s = settled(u, reward_rate, now);
    assert(elapsed_u64(s.last_stake_time, now) == 0);
    assert(earned_amount(0, s.mint_staked_count, reward_rate, s.reward_earned_pending)
        == s.reward_earned_pending as nat);
    assert(settled(s, reward_rate, now) =~= s);
}

/// Monotonicity of the pending reward under settlement: a settlement never
/// lowers it, and while nothing is staked it does not move it at all.
pub proof fn lemma_settle_monotone(u: User, reward_rate: u128, now: u64)
    requires
        settle_fits(u, reward_rate, now),
    ensures
        settled(u, reward_rate, now).reward_earned_pending >= u.reward_earned_pending,
        u.mint_staked_count == 0 ==> settled(u, reward_rate, now).reward_earned_pending
            == u.reward_earned_pending,
{
    if u.mint_staked_count == 0 {
        let per_second = reward_rate as nat / crate::constant::CALC_PRECISION as nat;
        let elapsed = elapsed_u64(u.last_stake_time, now);
        assert(per_second * (u.mint_staked_count as nat) * (elapsed as nat) == 0)
            by (nonlinear_arith)
            requires
                u.mint_staked_count == 0,
        ;
        assert(earned_amount(
            elapsed_u64(u.last_stake_time, now),
            u.mint_staked_count,
            reward_rate,
            u.reward_earned_pending,
        ) == u.reward_earned_pending as nat);
    }
}

/// A full funder registry admits nobody: with every slot occupied,
/// AuthorizeFunder cannot succeed, whoever calls and whoever is proposed.
pub proof fn lemma_full_registry_rejects(v: Vault, caller: u64, funder: u64)
    requires
        forall|i: int| 0 <= i < v.funders@.len() ==> v.funders@[i] != EMPTY_IDENTITY,
    ensures
        !authorize_allowed(v, caller, funder),
{
    if v.funders@.contains(EMPTY_IDENTITY) {
        let i = choose|i: int| 0 <= i < v.funders@.len() && v.funders@[i] == EMPTY_IDENTITY;
        assert(v.funders@[i] != EMPTY_IDENTITY);
    }
}

/// Slot reuse: after a successful UnauthorizeFunder of `f` — which overwrites
/// the slot `f` occupied with the empty sentinel — an AuthorizeFunder by the
/// authority of any identity that is not the authority and is not still
/// registered succeeds, the freed slot being free to take it.
pub proof fn lemma_authorize_after_unauthorize(v0: Vault, v1: Vault, caller: u64, f: u64, g: u64)
    requires
        unauthorize_allowed(v0, caller, f),
        exists|i: int|
            is_first_at(v0.funders@, f, i) && v1.funders@ == v0.funders@.update(
                i,
                EMPTY_IDENTITY,
            ),
        v1.status == v0.status,
        v1.authority == v0.authority,
        g != v0.authority,
        !v1.funders@.contains(g),
    ensures
        authorize_allowed(v1, v0.authority, g),
{
    let i = choose|i: int|
        is_first_at(v0.funders@, f, i) && v1.funders@ == v0.funders@.update(i, EMPTY_IDENTITY);
    assert(v1.funders@[i] == EMPTY_IDENTITY);
    assert(v1.funders@.contains(EMPTY_IDENTITY));
}

} // verus!
