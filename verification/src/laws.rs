//! Properties that hold across the instructions of the staking program.
use vstd::prelude::*;
use crate::claim::{claim_amount, claim_decision, claimed_user};
use crate::metadata::NftMetadataView;
use crate::reward::{
    debt_fits, entitled_reward, pending_fits, pending_reward, pool_at, pool_update_fits,
    share_gain, with_debt_updated, with_pending_stored,
};
use crate::stake::{enter_decision, staked_pool, staked_user, EnterAction};
use crate::state::{Address, StakingContext, UserContext, COMPUTATION_DECIMALS};

verus! {

/// The user's debt does not exceed what their deposit is entitled to, so the
/// pending reward is never negative.
pub open spec fn debt_covered(s: StakingContext, u: UserContext) -> bool {
    u.reward_debt <= entitled_reward(s, u)
}

/// Sum of the deposits of the given users.
pub open spec fn total_deposits(users: Seq<UserContext>) -> int
    decreases users.len(),
{
    if users.len() == 0 {
        0
    } else {
        total_deposits(users.drop_last()) + users.last().deposited_amount
    }
}

/// Bringing the pool up to date never lowers the accumulator, moves the last
/// update to `now` (never backwards), and leaves rate, shares and addresses
/// alone; with no share staked the accumulator does not move at all.
pub proof fn lemma_pool_update_monotone(s: StakingContext, now: u64)
    requires
        pool_update_fits(s, now),
    ensures
        pool_at(s, now).accumulated_reward_per_share >= s.accumulated_reward_per_share,
        pool_at(s, now).last_reward_timestamp == now,
        s.last_reward_timestamp <= now,
        pool_at(s, now).total_shares == s.total_shares,
        pool_at(s, now).reward_token_per_sec == s.reward_token_per_sec,
        pool_at(s, now).authority == s.authority,
        pool_at(s, now).reward_token_mint == s.reward_token_mint,
        pool_at(s, now).allowed_collection_address == s.allowed_collection_address,
        s.total_shares == 0 ==> pool_at(s, now).accumulated_reward_per_share
            == s.accumulated_reward_per_share,
{
    if s.total_shares != 0 {
        assert(pool_at(s, now).accumulated_reward_per_share >= s.accumulated_reward_per_share)
            by (nonlinear_arith)
            requires
                s.last_reward_timestamp <= now,
                s.total_shares > 0,
                share_gain(s, now) == (s.reward_token_per_sec * (now - s.last_reward_timestamp)
                    * COMPUTATION_DECIMALS) / (s.total_shares as int),
                pool_at(s, now).accumulated_reward_per_share == s.accumulated_reward_per_share
                    + share_gain(s, now),
        ;
    }
}

/// A second pool update at the same time changes nothing: no time has passed,
/// so nothing more is earned.
pub proof fn lemma_pool_update_idempotent(s: StakingContext, now: u64)
    requires
        pool_update_fits(s, now),
    ensures
        pool_update_fits(pool_at(s, now), now),
        pool_at(pool_at(s, now), now) == pool_at(s, now),
{
    let p = pool_at(s, now);
    assert(now - p.last_reward_timestamp == 0);
    assert(p.reward_token_per_sec * 0 == 0);
    assert(share_gain(p, now) == 0);
}

/// Right after the debt is reset, nothing is pending.
pub proof fn lemma_no_pending_after_debt_update(s: StakingContext, u: UserContext)
    requires
        debt_fits(s, u),
    ensures
        pending_reward(s, with_debt_updated(s, u)) == 0,
        debt_covered(s, with_debt_updated(s, u)),
{
    assert(entitled_reward(s, u) >= 0) by (nonlinear_arith)
        requires
            entitled_reward(s, u) == (u.deposited_amount * s.accumulated_reward_per_share) / (
            COMPUTATION_DECIMALS as int),
    ;
    assert(entitled_reward(s, u) <= u64::MAX) by (nonlinear_arith)
        requires
            entitled_reward(s, u) == (u.deposited_amount * s.accumulated_reward_per_share) / (
            COMPUTATION_DECIMALS as int),
            u.deposited_amount * s.accumulated_reward_per_share <= u64::MAX,
    ;
}

/// A fresh user position is covered under any pool state.
pub proof fn lemma_new_user_covered(s: StakingContext, u: UserContext)
    requires
        u.deposited_amount == 0,
        u.reward_debt == 0,
    ensures
        debt_covered(s, u),
        pending_reward(s, u) == 0,
{
    assert(u.deposited_amount * s.accumulated_reward_per_share == 0);
}

/// A growing accumulator keeps a covered debt covered.
pub proof fn lemma_accumulator_growth_keeps_debt_covered(
    s: StakingContext,
    s2: StakingContext,
    u: UserContext,
)
    requires
        s.accumulated_reward_per_share <= s2.accumulated_reward_per_share,
        debt_covered(s, u),
    ensures
        debt_covered(s2, u),
{
    assert(entitled_reward(s, u) <= entitled_reward(s2, u)) by (nonlinear_arith)
        requires
            s.accumulated_reward_per_share <= s2.accumulated_reward_per_share,
            entitled_reward(s, u) == (u.deposited_amount * s.accumulated_reward_per_share) / (
            COMPUTATION_DECIMALS as int),
            entitled_reward(s2, u) == (u.deposited_amount * s2.accumulated_reward_per_share) / (
            COMPUTATION_DECIMALS as int),
    {
        let a = u.deposited_amount * s.accumulated_reward_per_share;
        let b = u.deposited_amount * s2.accumulated_reward_per_share;
        assert(a <= b);
        vstd::arithmetic::div_mod::lemma_div_is_ordered(a, b, COMPUTATION_DECIMALS as int);
    }
}

/// A granted stake keeps every other user's debt covered, and leaves the
/// staker with nothing pending.
pub proof fn lemma_enter_keeps_debt_covered(
    s: StakingContext,
    staker: UserContext,
    other: UserContext,
    metadata: Option<NftMetadataView>,
    nft_mint: Address,
    now: u64,
)
    requires
        enter_decision(s, staker, metadata, nft_mint, now) matches Ok(
            EnterAction::TransferNft { .. },
        ),
        debt_covered(s, other),
    ensures
        debt_covered(staked_pool(s, now), other),
        debt_covered(staked_pool(s, now), staked_user(s, staker, now)),
        pending_reward(staked_pool(s, now), staked_user(s, staker, now)) == 0,
{
    lemma_pool_update_monotone(s, now);
    lemma_accumulator_growth_keeps_debt_covered(s, staked_pool(s, now), other);
    let grown = UserContext { deposited_amount: (staker.deposited_amount + 1) as u64, ..staker };
    lemma_no_pending_after_debt_update(staked_pool(s, now), grown);
}

/// A granted claim keeps every other user's debt covered, and leaves the
/// claimer with nothing pending.
pub proof fn lemma_claim_keeps_debt_covered(
    s: StakingContext,
    claimer: UserContext,
    other: UserContext,
    amount: u64,
    now: u64,
)
    requires
        claim_decision(s, claimer, amount, now) is Ok,
        debt_covered(s, other),
    ensures
        debt_covered(pool_at(s, now), other),
        debt_covered(pool_at(s, now), claimed_user(s, claimer, amount, now)),
        pending_reward(pool_at(s, now), claimed_user(s, claimer, amount, now)) == 0,
{
    lemma_pool_update_monotone(s, now);
    lemma_accumulator_growth_keeps_debt_covered(s, pool_at(s, now), other);
    let stored = with_pending_stored(pool_at(s, now), claimer);
    let taken = UserContext {
        accumulated_reward: (stored.accumulated_reward - claim_amount(stored, amount)) as u64,
        ..stored
    };
    lemma_no_pending_after_debt_update(pool_at(s, now), taken);
}

/// A granted claim hands out exactly what it takes: the minted amount plus
/// what stays accumulated equals what was accumulated plus the reward earned
/// up to now; a claim of zero takes everything.
pub proof fn lemma_claim_accounts_for_reward(
    s: StakingContext,
    u: UserContext,
    amount: u64,
    now: u64,
)
    requires
        claim_decision(s, u, amount, now) is Ok,
    ensures
        ({
            let minted = claim_decision(s, u, amount, now)->Ok_0;
            &&& minted + claimed_user(s, u, amount, now).accumulated_reward == u.accumulated_reward
                + pending_reward(pool_at(s, now), u)
            &&& amount != 0 ==> minted == amount
            &&& amount == 0 ==> claimed_user(s, u, amount, now).accumulated_reward == 0
        }),
{
}

/// Sum of deposits after one user's position is replaced.
proof fn lemma_total_deposits_update(users: Seq<UserContext>, k: int, u: UserContext)
    requires
        0 <= k < users.len(),
    ensures
        total_deposits(users.update(k, u)) == total_deposits(users)
            - users[k].deposited_amount + u.deposited_amount,
    decreases users.len(),
{
    let updated = users.update(k, u);
    if k == users.len() - 1 {
        assert(updated.drop_last() =~= users.drop_last());
    } else {
        lemma_total_deposits_update(users.drop_last(), k, u);
        assert(updated.drop_last() =~= users.drop_last().update(k, u));
    }
}

/// The pool's share count is the sum of the users' deposits, as long as it
/// was so before: a granted stake adds one to both sides, a granted claim and
/// a new empty position change neither.
pub proof fn lemma_shares_match_deposits(
    s: StakingContext,
    users: Seq<UserContext>,
    k: int,
    metadata: Option<NftMetadataView>,
    nft_mint: Address,
    amount: u64,
    now: u64,
)
    requires
        0 <= k < users.len(),
        s.total_shares == total_deposits(users),
    ensures
        enter_decision(s, users[k], metadata, nft_mint, now) is Ok && enter_decision(
            s,
            users[k],
            metadata,
            nft_mint,
            now,
        )->Ok_0 != EnterAction::Skip ==> staked_pool(s, now).total_shares == total_deposits(
            users.update(k, staked_user(s, users[k], now)),
        ),
        claim_decision(s, users[k], amount, now) is Ok ==> pool_at(s, now).total_shares
            == total_deposits(users.update(k, claimed_user(s, users[k], amount, now))),
        total_deposits(users.push(UserContext { deposited_amount: 0, reward_debt: 0, accumulated_reward: 0 }))
            == s.total_shares,
{
    lemma_total_deposits_update(users, k, staked_user(s, users[k], now));
    lemma_total_deposits_update(users, k, claimed_user(s, users[k], amount, now));
    let z = UserContext { deposited_amount: 0, reward_debt: 0, accumulated_reward: 0 };
    assert(users.push(z).drop_last() =~= users);
}

} // verus!
