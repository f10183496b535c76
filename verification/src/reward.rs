//! Reward accounting: the per-share accumulator of the pool, the reward a user
//! is owed on their shares, and the debt that marks what has already been
//! accounted for.
use vstd::prelude::*;
use crate::state::{StakingContext, UserContext, COMPUTATION_DECIMALS};

verus! {

/// Reward tokens emitted since the last pool update, at `now`.
pub open spec fn pool_income(s: StakingContext, now: u64) -> int {
    s.reward_token_per_sec * (now - s.last_reward_timestamp)
}

/// Growth of the scaled per-share accumulator at `now`: the income scaled by
/// `COMPUTATION_DECIMALS` and shared out over the staked shares, rounded down;
/// nothing when no share is staked.
pub open spec fn share_gain(s: StakingContext, now: u64) -> int {
    if s.total_shares == 0 {
        0
    } else {
        (pool_income(s, now) * COMPUTATION_DECIMALS) / (s.total_shares as int)
    }
}

/// The pool can be brought up to `now` without leaving the range of `u64`:
/// time does not run backwards, and the income, the scaled income and the new
/// accumulator all fit.
pub open spec fn pool_update_fits(s: StakingContext, now: u64) -> bool {
    &&& s.last_reward_timestamp <= now
    &&& pool_income(s, now) <= u64::MAX
    &&& pool_income(s, now) * COMPUTATION_DECIMALS <= u64::MAX
    &&& s.accumulated_reward_per_share + share_gain(s, now) <= u64::MAX
}

/// The pool brought up to `now`.
pub open spec fn pool_at(s: StakingContext, now: u64) -> StakingContext {
    StakingContext {
        accumulated_reward_per_share: (s.accumulated_reward_per_share + share_gain(s, now)) as u64,
        last_reward_timestamp: now,
        ..s
    }
}

/// The reward a user's deposit is entitled to under the current accumulator,
/// rounded down.
pub open spec fn entitled_reward(s: StakingContext, u: UserContext) -> int {
    (u.deposited_amount * s.accumulated_reward_per_share) / (COMPUTATION_DECIMALS as int)
}

/// Reward earned since the debt was last set.
pub open spec fn pending_reward(s: StakingContext, u: UserContext) -> int {
    entitled_reward(s, u) - u.reward_debt
}

/// The product of deposit and accumulator fits in `u64`.
pub open spec fn debt_fits(s: StakingContext, u: UserContext) -> bool {
    u.deposited_amount * s.accumulated_reward_per_share <= u64::MAX
}

/// The pending reward can be added to the user's accumulated reward: the
/// product fits, the debt does not exceed the entitlement, and the sum fits.
pub open spec fn pending_fits(s: StakingContext, u: UserContext) -> bool {
    &&& debt_fits(s, u)
    &&& u.reward_debt <= entitled_reward(s, u)
    &&& u.accumulated_reward + pending_reward(s, u) <= u64::MAX
}

/// The user with the pending reward moved into the accumulated reward.
pub open spec fn with_pending_stored(s: StakingContext, u: UserContext) -> UserContext {
    UserContext { accumulated_reward: (u.accumulated_reward + pending_reward(s, u)) as u64, ..u }
}

/// The user with the debt set to the current entitlement.
pub open spec fn with_debt_updated(s: StakingContext, u: UserContext) -> UserContext {
    UserContext { reward_debt: entitled_reward(s, u) as u64, ..u }
}

/// Brings the reward accumulator of the pool up to `current_timestamp` and
/// records that time as the last update. The user is not touched.
pub fn update_reward_pool(
    current_timestamp: u64,
    staking_instance: &mut StakingContext,
    user_instance: &mut UserContext,
)
    requires
        pool_update_fits(*old(staking_instance), current_timestamp),
    ensures
        *final(staking_instance) == pool_at(*old(staking_instance), current_timestamp),
        *final(user_instance) == *old(user_instance),
{
    let income = staking_instance.reward_token_per_sec.checked_mul(
        current_timestamp.checked_sub(staking_instance.last_reward_timestamp).unwrap(),
    ).unwrap();
    let scaled = income.checked_mul(COMPUTATION_DECIMALS).unwrap();
    let gain = scaled.checked_div(staking_instance.total_shares).unwrap_or(0);
    staking_instance.accumulated_reward_per_share =
        staking_instance.accumulated_reward_per_share.checked_add(gain).unwrap();
    staking_instance.last_reward_timestamp = current_timestamp;
}

/// Adds the user's pending reward (entitlement minus debt) to their
/// accumulated reward. The pool is not touched.
pub fn store_pending_reward(staking_instance: &mut StakingContext, user_instance: &mut UserContext)
    requires
        pending_fits(*old(staking_instance), *old(user_instance)),
    ensures
        *final(staking_instance) == *old(staking_instance),
        *final(user_instance) == with_pending_stored(*old(staking_instance), *old(user_instance)),
{
    let entitled = user_instance.deposited_amount.checked_mul(
        staking_instance.accumulated_reward_per_share,
    ).unwrap().checked_div(COMPUTATION_DECIMALS).unwrap();
    let pending = entitled.checked_sub(user_instance.reward_debt).unwrap();
    user_instance.accumulated_reward = user_instance.accumulated_reward.checked_add(pending).unwrap();
}

/// Sets the user's debt to their current entitlement, so that only reward
/// earned from now on is pending. The pool is not touched.
pub fn update_reward_debt(staking_instance: &mut StakingContext, user_instance: &mut UserContext)
    requires
        debt_fits(*old(staking_instance), *old(user_instance)),
    ensures
        *final(staking_instance) == *old(staking_instance),
        *final(user_instance) == with_debt_updated(*old(staking_instance), *old(user_instance)),
{
    user_instance.reward_debt = user_instance.deposited_amount.checked_mul(
        staking_instance.accumulated_reward_per_share,
    ).unwrap().checked_div(COMPUTATION_DECIMALS).unwrap();
}

/// Whether `update_reward_pool` can run at `now`, checked in the same order.
pub(crate) fn can_update_pool(s: &StakingContext, now: u64) -> (r: bool)
    ensures
        r == pool_update_fits(*s, now),
{
    if now < s.last_reward_timestamp {
        return false;
    }
    match s.reward_token_per_sec.checked_mul(now - s.last_reward_timestamp) {
        None => false,
        Some(income) => match income.checked_mul(COMPUTATION_DECIMALS) {
            None => false,
            Some(scaled) => {
                let gain = if s.total_shares == 0 { 0 } else { scaled / s.total_shares };
                s.accumulated_reward_per_share.checked_add(gain).is_some()
            },
        },
    }
}

/// Whether the product of deposit and accumulator fits in `u64`.
pub(crate) fn can_update_debt(s: &StakingContext, u: &UserContext) -> (r: bool)
    ensures
        r == debt_fits(*s, *u),
{
    u.deposited_amount.checked_mul(s.accumulated_reward_per_share).is_some()
}

/// Whether `store_pending_reward` can run.
pub(crate) fn can_store_pending(s: &StakingContext, u: &UserContext) -> (r: bool)
    ensures
        r == pending_fits(*s, *u),
{
    match u.deposited_amount.checked_mul(s.accumulated_reward_per_share) {
        None => false,
        Some(product) => {
            let entitled = product / COMPUTATION_DECIMALS;
            if entitled < u.reward_debt {
                false
            } else {
                u.accumulated_reward.checked_add(entitled - u.reward_debt).is_some()
            }
        },
    }
}

} // verus!
