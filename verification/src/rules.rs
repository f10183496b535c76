//! The instructions' answers stated from their inputs alone, in plain
//! arithmetic over the account fields: when each instruction is granted, what
//! it leaves behind, and why it is refused otherwise.
use vstd::prelude::*;
use crate::claim::{claim_decision, claimed_user};
use crate::metadata::{decoded_metadata, NftMetadataView};
use crate::reward::{
    debt_fits, pending_fits, pool_at, pool_update_fits, with_debt_updated, with_pending_stored,
};
use crate::stake::{enter_decision, staked_pool, staked_user, EnterAction};
use crate::state::{Address, StakingContext, StakingError, UserContext, COMPUTATION_DECIMALS};

verus! {

/// Bringing the pool up to `now` is possible exactly when no checked step
/// leaves `u64`: the clock has not gone back, the income `rate * elapsed` fits,
/// the income times `COMPUTATION_DECIMALS` fits, and the new accumulator fits.
/// Nothing else limits it: neither how long ago the last update was nor
/// whether any share is staked. The accumulator then grows by the scaled
/// income divided by the share count, rounded down, or not at all when no
/// share is staked; the clock moves to `now`; nothing else changes.
pub proof fn law_pool_update(s: StakingContext, now: u64)
    ensures
        ({
            let income = s.reward_token_per_sec * (now - s.last_reward_timestamp);
            let scaled = income * COMPUTATION_DECIMALS;
            let gain = if s.total_shares == 0 {
                0
            } else {
                scaled / (s.total_shares as int)
            };
            let fits = s.last_reward_timestamp <= now && income <= u64::MAX && scaled <= u64::MAX
                && s.accumulated_reward_per_share + gain <= u64::MAX;
            &&& pool_update_fits(s, now) <==> fits
            &&& fits ==> {
                &&& pool_at(s, now).accumulated_reward_per_share == s.accumulated_reward_per_share
                    + gain
                &&& pool_at(s, now).last_reward_timestamp == now
                &&& pool_at(s, now).reward_token_per_sec == s.reward_token_per_sec
                &&& pool_at(s, now).total_shares == s.total_shares
                &&& pool_at(s, now).authority == s.authority
                &&& pool_at(s, now).reward_token_mint == s.reward_token_mint
                &&& pool_at(s, now).allowed_collection_address == s.allowed_collection_address
            }
        }),
{
}

/// With no share staked, the pool can be brought up to any later time whose
/// income and scaled income fit, and its accumulator stays where it was.
pub proof fn law_empty_pool_update(s: StakingContext, now: u64)
    requires
        s.total_shares == 0,
        s.last_reward_timestamp <= now,
        s.reward_token_per_sec * (now - s.last_reward_timestamp) <= u64::MAX,
        s.reward_token_per_sec * (now - s.last_reward_timestamp) * COMPUTATION_DECIMALS
            <= u64::MAX,
    ensures
        pool_update_fits(s, now),
        pool_at(s, now).accumulated_reward_per_share == s.accumulated_reward_per_share,
        pool_at(s, now).last_reward_timestamp == now,
{
    law_pool_update(s, now);
}

/// Storing the pending reward is possible exactly when the product of deposit
/// and accumulator fits, the debt does not exceed `deposit * acc / 10^12`,
/// and the new accumulated reward fits; it then adds that entitlement minus
/// the debt to the accumulated reward and changes nothing else.
pub proof fn law_store_pending(s: StakingContext, u: UserContext)
    ensures
        ({
            let product = u.deposited_amount * s.accumulated_reward_per_share;
            let entitled = product / (COMPUTATION_DECIMALS as int);
            let fits = product <= u64::MAX && u.reward_debt <= entitled && u.accumulated_reward
                + entitled - u.reward_debt <= u64::MAX;
            &&& pending_fits(s, u) <==> fits
            &&& fits ==> {
                &&& with_pending_stored(s, u).accumulated_reward == u.accumulated_reward + entitled
                    - u.reward_debt
                &&& with_pending_stored(s, u).reward_debt == u.reward_debt
                &&& with_pending_stored(s, u).deposited_amount == u.deposited_amount
            }
        }),
{
}

/// Resetting the debt is possible exactly when the product of deposit and
/// accumulator fits; the debt becomes `deposit * acc / 10^12` and nothing
/// else changes.
pub proof fn law_debt_update(s: StakingContext, u: UserContext)
    ensures
        debt_fits(s, u) <==> u.deposited_amount * s.accumulated_reward_per_share <= u64::MAX,
        debt_fits(s, u) ==> {
            &&& with_debt_updated(s, u).reward_debt == (u.deposited_amount
                * s.accumulated_reward_per_share) / (COMPUTATION_DECIMALS as int)
            &&& with_debt_updated(s, u).accumulated_reward == u.accumulated_reward
            &&& with_debt_updated(s, u).deposited_amount == u.deposited_amount
        },
{
    if debt_fits(s, u) {
        assert((u.deposited_amount * s.accumulated_reward_per_share) / (COMPUTATION_DECIMALS as int)
            <= u64::MAX) by (nonlinear_arith)
            requires
                u.deposited_amount * s.accumulated_reward_per_share <= u64::MAX,
        ;
        assert((u.deposited_amount * s.accumulated_reward_per_share) / (COMPUTATION_DECIMALS as int)
            >= 0) by (nonlinear_arith);
    }
}

/// A claim of `amount` at `now`, stated from the accounts: with the pool
/// brought up to `now` (accumulator `acc`), the user's reward is what they had
/// accumulated plus `deposit * acc / 10^12 - debt`. The claim is granted
/// exactly when every checked step fits and `amount` is at most that reward;
/// it mints `amount`, or the whole reward when `amount` is zero, leaves the
/// rest accumulated, and sets the debt to `deposit * acc / 10^12`. A claim
/// whose arithmetic does not fit is refused as an overflow; one for more than
/// the reward is refused as exceeding it.
pub proof fn law_claim(s: StakingContext, u: UserContext, amount: u64, now: u64)
    ensures
        ({
            let income = s.reward_token_per_sec * (now - s.last_reward_timestamp);
            let scaled = income * COMPUTATION_DECIMALS;
            let gain = if s.total_shares == 0 {
                0
            } else {
                scaled / (s.total_shares as int)
            };
            let pool_fits = s.last_reward_timestamp <= now && income <= u64::MAX && scaled
                <= u64::MAX && s.accumulated_reward_per_share + gain <= u64::MAX;
            let acc = s.accumulated_reward_per_share + gain;
            let product = u.deposited_amount * acc;
            let entitled = product / (COMPUTATION_DECIMALS as int);
            let reward = u.accumulated_reward + entitled - u.reward_debt;
            let user_fits = product <= u64::MAX && u.reward_debt <= entitled && reward <= u64::MAX;
            let minted = if amount == 0 {
                reward
            } else {
                amount as int
            };
            &&& !pool_fits ==> claim_decision(s, u, amount, now) == Err::<u64, StakingError>(
                StakingError::MathOverflow,
            )
            &&& pool_fits && !user_fits ==> claim_decision(s, u, amount, now) == Err::<
                u64,
                StakingError,
            >(StakingError::MathOverflow)
            &&& pool_fits && user_fits && minted > reward ==> claim_decision(s, u, amount, now)
                == Err::<u64, StakingError>(StakingError::ClaimExceedsReward)
            &&& pool_fits && user_fits && minted <= reward ==> {
                &&& claim_decision(s, u, amount, now) is Ok
                &&& claim_decision(s, u, amount, now)->Ok_0 == minted
                &&& claimed_user(s, u, amount, now).accumulated_reward == reward - minted
                &&& claimed_user(s, u, amount, now).reward_debt == entitled
                &&& claimed_user(s, u, amount, now).deposited_amount == u.deposited_amount
                &&& pool_at(s, now).accumulated_reward_per_share == acc
            }
        }),
{
    law_pool_update(s, now);
}

/// A claim of a nonzero amount up to the user's accumulated plus pending
/// reward, with all arithmetic in range, is granted for exactly that amount,
/// however the reward splits between what was accumulated before and what was
/// earned since.
pub proof fn law_claim_any_amount_up_to_reward(
    s: StakingContext,
    u: UserContext,
    amount: u64,
    now: u64,
)
    requires
        s.last_reward_timestamp <= now,
        s.reward_token_per_sec * (now - s.last_reward_timestamp) * COMPUTATION_DECIMALS
            <= u64::MAX,
        s.total_shares > 0,
        s.accumulated_reward_per_share + (s.reward_token_per_sec * (now
            - s.last_reward_timestamp) * COMPUTATION_DECIMALS) / (s.total_shares as int)
            <= u64::MAX,
        ({
            let acc = s.accumulated_reward_per_share + (s.reward_token_per_sec * (now
                - s.last_reward_timestamp) * COMPUTATION_DECIMALS) / (s.total_shares as int);
            let entitled = (u.deposited_amount * acc) / (COMPUTATION_DECIMALS as int);
            &&& u.deposited_amount * acc <= u64::MAX
            &&& u.reward_debt <= entitled
            &&& u.accumulated_reward + entitled - u.reward_debt <= u64::MAX
            &&& 0 < amount <= u.accumulated_reward + entitled - u.reward_debt
        }),
    ensures
        claim_decision(s, u, amount, now) == Ok::<u64, StakingError>(amount),
{
    assert(s.reward_token_per_sec * (now - s.last_reward_timestamp) <= u64::MAX) by (nonlinear_arith)
        requires
            s.reward_token_per_sec * (now - s.last_reward_timestamp) * COMPUTATION_DECIMALS
                <= u64::MAX,
            s.last_reward_timestamp <= now,
    ;
    law_claim(s, u, amount, now);
}

/// A stake, stated from the inputs: unreadable metadata is refused, metadata
/// without creators is refused; otherwise the stake is passed over, changing
/// nothing, exactly when no creator at any position is both the pool's
/// allowed collection and verified, or the metadata describes another mint.
/// An accepted stake whose arithmetic fits is granted with a one-token
/// transfer and leaves the pool brought up to `now` with one more share, and
/// the user with one more deposit and the debt `(deposit + 1) * acc / 10^12`;
/// one whose arithmetic does not fit is refused as an overflow.
pub proof fn law_enter(
    s: StakingContext,
    u: UserContext,
    metadata: Option<NftMetadataView>,
    nft_mint: Address,
    now: u64,
)
    ensures
        metadata is None ==> enter_decision(s, u, metadata, nft_mint, now) == Err::<
            EnterAction,
            StakingError,
        >(StakingError::MetadataUnreadable),
        metadata matches Some(md) ==> md.creators is None ==> enter_decision(
            s,
            u,
            metadata,
            nft_mint,
            now,
        ) == Err::<EnterAction, StakingError>(StakingError::MissingCreators),
        metadata matches Some(md) ==> md.creators matches Some(creators) ==> ({
            let accepted = (exists|i: int|
                0 <= i < creators.len() && (#[trigger] creators[i]).address@
                    == s.allowed_collection_address@ && creators[i].verified) && md.mint@
                == nft_mint@;
            let income = s.reward_token_per_sec * (now - s.last_reward_timestamp);
            let scaled = income * COMPUTATION_DECIMALS;
            let gain = if s.total_shares == 0 {
                0
            } else {
                scaled / (s.total_shares as int)
            };
            let acc = s.accumulated_reward_per_share + gain;
            let fits = s.last_reward_timestamp <= now && income <= u64::MAX && scaled <= u64::MAX
                && acc <= u64::MAX && u.deposited_amount < u64::MAX && s.total_shares < u64::MAX
                && (u.deposited_amount + 1) * acc <= u64::MAX;
            &&& !accepted ==> enter_decision(s, u, metadata, nft_mint, now) == Ok::<
                EnterAction,
                StakingError,
            >(EnterAction::Skip)
            &&& accepted && !fits ==> enter_decision(s, u, metadata, nft_mint, now) == Err::<
                EnterAction,
                StakingError,
            >(StakingError::MathOverflow)
            &&& accepted && fits ==> {
                &&& enter_decision(s, u, metadata, nft_mint, now) == Ok::<
                    EnterAction,
                    StakingError,
                >(EnterAction::TransferNft { amount: 1 })
                &&& staked_pool(s, now).accumulated_reward_per_share == acc
                &&& staked_pool(s, now).last_reward_timestamp == now
                &&& staked_pool(s, now).total_shares == s.total_shares + 1
                &&& staked_pool(s, now).reward_token_per_sec == s.reward_token_per_sec
                &&& staked_pool(s, now).allowed_collection_address == s.allowed_collection_address
                &&& staked_pool(s, now).authority == s.authority
                &&& staked_pool(s, now).reward_token_mint == s.reward_token_mint
                &&& staked_user(s, u, now).deposited_amount == u.deposited_amount + 1
                &&& staked_user(s, u, now).reward_debt == ((u.deposited_amount + 1) * acc) / (
                COMPUTATION_DECIMALS as int)
                &&& staked_user(s, u, now).accumulated_reward == u.accumulated_reward
            }
        }),
{
    law_pool_update(s, now);
    let income = s.reward_token_per_sec * (now - s.last_reward_timestamp);
    if s.last_reward_timestamp <= now {
        assert(income >= 0) by (nonlinear_arith)
            requires
                income == s.reward_token_per_sec * (now - s.last_reward_timestamp),
                s.last_reward_timestamp <= now,
        ;
        if s.total_shares > 0 {
            assert((income * COMPUTATION_DECIMALS) / (s.total_shares as int) >= 0) by (nonlinear_arith)
                requires
                    income >= 0,
                    s.total_shares > 0,
            ;
        }
    }
    let gain = if s.total_shares == 0 {
        0
    } else {
        (income * COMPUTATION_DECIMALS) / (s.total_shares as int)
    };
    let acc = s.accumulated_reward_per_share + gain;
    let d1 = u.deposited_amount + 1;
    if s.last_reward_timestamp <= now && acc >= 0 && d1 * acc <= u64::MAX {
        assert(d1 * acc >= 0) by (nonlinear_arith)
            requires
                acc >= 0,
                d1 >= 1,
        ;
        assert((d1 * acc) / (COMPUTATION_DECIMALS as int) <= d1 * acc) by (nonlinear_arith)
            requires
                d1 * acc >= 0,
        ;
    }
}

/// Bytes that follow a decodable metadata account (the zero padding of a
/// real account, for instance) do not change what a stake of that account
/// answers or leaves behind.
pub proof fn law_enter_ignores_trailing_bytes(
    s: StakingContext,
    u: UserContext,
    data: Seq<u8>,
    pad: Seq<u8>,
    nft_mint: Address,
    now: u64,
)
    requires
        forall|p: Seq<u8>| #[trigger] decoded_metadata(data + p) == decoded_metadata(data),
    ensures
        enter_decision(s, u, decoded_metadata(data + pad), nft_mint, now) == enter_decision(
            s,
            u,
            decoded_metadata(data),
            nft_mint,
            now,
        ),
{
    assert(decoded_metadata(data + pad) == decoded_metadata(data));
}

} // verus!
