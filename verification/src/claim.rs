//! Claiming accumulated reward.
use vstd::prelude::*;
use crate::reward::{
    can_store_pending, can_update_pool, pending_fits, pool_at, pool_update_fits,
    store_pending_reward, update_reward_debt, update_reward_pool, with_debt_updated,
    with_pending_stored,
};
use crate::state::{StakingContext, StakingError, UserContext};

verus! {

/// The amount a claim of `amount` takes from a user whose pending reward has
/// been stored: everything accumulated when `amount` is zero, else `amount`.
pub open spec fn claim_amount(u: UserContext, amount: u64) -> u64 {
    if amount == 0 {
        u.accumulated_reward
    } else {
        amount
    }
}

/// The answer to a claim of `amount` at `now`: the number of reward tokens to
/// mint, or why the claim is refused.
pub open spec fn claim_decision(s: StakingContext, u: UserContext, amount: u64, now: u64) -> Result<
    u64,
    StakingError,
> {
    if !pool_update_fits(s, now) {
        Err(StakingError::MathOverflow)
    } else if !pending_fits(pool_at(s, now), u) {
        Err(StakingError::MathOverflow)
    } else if claim_amount(with_pending_stored(pool_at(s, now), u), amount) > with_pending_stored(
        pool_at(s, now),
        u,
    ).accumulated_reward {
        Err(StakingError::ClaimExceedsReward)
    } else {
        Ok(claim_amount(with_pending_stored(pool_at(s, now), u), amount))
    }
}

/// The user after a granted claim of `amount` at `now`: pending reward stored,
/// the claimed amount taken out, the debt reset to the entitlement.
pub open spec fn claimed_user(s: StakingContext, u: UserContext, amount: u64, now: u64) -> UserContext {
    let p = pool_at(s, now);
    let stored = with_pending_stored(p, u);
    with_debt_updated(
        p,
        UserContext {
            accumulated_reward: (stored.accumulated_reward - claim_amount(stored, amount)) as u64,
            ..stored
        },
    )
}

/// Claims reward: brings the pool up to the current time (the clock's signed
/// Unix time taken as `u64`), stores the user's pending reward, takes `amount`
/// (everything, when `amount` is zero) out of the accumulated reward and
/// resets the debt. Returns the number of reward tokens to mint to the user;
/// the new state stands only if that mint succeeds. A refused claim changes
/// nothing.
pub fn claim_rewards(
    staking_instance: &mut StakingContext,
    user_instance: &mut UserContext,
    amount: u64,
    unix_timestamp: i64,
) -> (r: Result<u64, StakingError>)
    ensures
        r == claim_decision(*old(staking_instance), *old(user_instance), amount, unix_timestamp as u64),
        r is Ok ==> {
            &&& *final(staking_instance) == pool_at(*old(staking_instance), unix_timestamp as u64)
            &&& *final(user_instance) == claimed_user(
                *old(staking_instance),
                *old(user_instance),
                amount,
                unix_timestamp as u64,
            )
        },
        r is Err ==> {
            &&& *final(staking_instance) == *old(staking_instance)
            &&& *final(user_instance) == *old(user_instance)
        },
{
    let current_timestamp = unix_timestamp as u64;
    if !can_update_pool(staking_instance, current_timestamp) {
        return Err(StakingError::MathOverflow);
    }
    let mut pool = *staking_instance;
    let mut user = *user_instance;
    update_reward_pool(current_timestamp, &mut pool, &mut user);
    if !can_store_pending(&pool, &user) {
        return Err(StakingError::MathOverflow);
    }
    store_pending_reward(&mut pool, &mut user);
    let amount = if amount == 0 {
        user.accumulated_reward
    } else {
        amount
    };
    if amount > user.accumulated_reward {
        return Err(StakingError::ClaimExceedsReward);
    }
    user.accumulated_reward = user.accumulated_reward - amount;
    update_reward_debt(&mut pool, &mut user);
    *staking_instance = pool;
    *user_instance = user;
    Ok(amount)
}

} // verus!
