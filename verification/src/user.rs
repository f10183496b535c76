//! Opening a user's staking position.
use vstd::prelude::*;
use crate::state::UserContext;

verus! {

/// Starts a user's position empty: nothing deposited, no debt, no reward.
pub fn init_user(user_instance: &mut UserContext)
    ensures
        final(user_instance).deposited_amount == 0,
        final(user_instance).reward_debt == 0,
        final(user_instance).accumulated_reward == 0,
{
    user_instance.deposited_amount = 0;
    user_instance.reward_debt = 0;
    user_instance.accumulated_reward = 0;
}

} // verus!
