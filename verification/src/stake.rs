//! Creating the staking pool and staking an NFT into it.
use vstd::prelude::*;
use crate::metadata::{decode_metadata, decoded_metadata, CreatorInfo, NftMetadata, NftMetadataView};
use crate::reward::{
    can_update_debt, can_update_pool, debt_fits, pool_at, pool_update_fits, update_reward_debt,
    update_reward_pool, with_debt_updated,
};
use crate::state::{Address, StakingContext, StakingError, UserContext};

verus! {

/// Number of NFT tokens moved into the program's wallet by one stake.
pub const NFT_STAKE_AMOUNT: u64 = 1;

/// What the caller has to do after `enter_staking` has accepted or passed over
/// a stake.
#[derive(Clone, Copy, Debug, PartialEq, Eq, Structural)]
pub enum EnterAction {
    /// Move `amount` NFT tokens from the holder's wallet to the program's
    /// wallet; the new state stands only if that transfer succeeds.
    TransferNft { amount: u64 },
    /// The NFT is not from the allowed collection or not of the given mint:
    /// nothing is moved and no state changes.
    Skip,
}

/// The decoded view of an optional metadata value.
pub open spec fn metadata_view(m: Option<NftMetadata>) -> Option<NftMetadataView> {
    match m {
        Some(md) => Some(md@),
        None => None,
    }
}

/// Some creator of the NFT is the allowed collection address and is verified.
pub open spec fn has_verified_creator(creators: Seq<CreatorInfo>, collection: Address) -> bool {
    exists|i: int|
        0 <= i < creators.len() && (#[trigger] creators[i]).address@ == collection@
            && creators[i].verified
}

/// The pool after one more share is staked at `now`.
pub open spec fn staked_pool(s: StakingContext, now: u64) -> StakingContext {
    StakingContext { total_shares: (s.total_shares + 1) as u64, ..pool_at(s, now) }
}

/// The user after staking one more NFT into the pool at `now`: the deposit
/// grows by one and the debt is reset to the new entitlement.
pub open spec fn staked_user(s: StakingContext, u: UserContext, now: u64) -> UserContext {
    with_debt_updated(
        staked_pool(s, now),
        UserContext { deposited_amount: (u.deposited_amount + 1) as u64, ..u },
    )
}

/// Every checked step of a stake at `now` stays within `u64`.
pub open spec fn stake_fits(s: StakingContext, u: UserContext, now: u64) -> bool {
    &&& pool_update_fits(s, now)
    &&& u.deposited_amount < u64::MAX
    &&& s.total_shares < u64::MAX
    &&& debt_fits(
        staked_pool(s, now),
        UserContext { deposited_amount: (u.deposited_amount + 1) as u64, ..u },
    )
}

/// The answer to a stake request, given the decoded metadata.
pub open spec fn enter_decision(
    s: StakingContext,
    u: UserContext,
    metadata: Option<NftMetadataView>,
    nft_mint: Address,
    now: u64,
) -> Result<EnterAction, StakingError> {
    match metadata {
        None => Err(StakingError::MetadataUnreadable),
        Some(md) => match md.creators {
            None => Err(StakingError::MissingCreators),
            Some(creators) => if !has_verified_creator(creators, s.allowed_collection_address)
                || md.mint@ != nft_mint@ {
                Ok(EnterAction::Skip)
            } else if !stake_fits(s, u, now) {
                Err(StakingError::MathOverflow)
            } else {
                Ok(EnterAction::TransferNft { amount: NFT_STAKE_AMOUNT })
            },
        },
    }
}

/// Sets up a fresh staking pool: its authority, reward rate, reward mint,
/// allowed collection, a zero accumulator and the current time (the clock's
/// signed Unix time taken as `u64`) as the last update. The share count is
/// left as the freshly created account holds it.
pub fn init_staking(
    staking_instance: &mut StakingContext,
    authority: Address,
    token_per_sec: u64,
    unix_timestamp: i64,
    reward_token_mint: Address,
    allowed_collection_address: Address,
)
    ensures
        final(staking_instance).authority == authority,
        final(staking_instance).reward_token_per_sec == token_per_sec,
        final(staking_instance).last_reward_timestamp == unix_timestamp as u64,
        final(staking_instance).accumulated_reward_per_share == 0,
        final(staking_instance).reward_token_mint == reward_token_mint,
        final(staking_instance).allowed_collection_address == allowed_collection_address,
        final(staking_instance).total_shares == old(staking_instance).total_shares,
{
    staking_instance.authority = authority;
    staking_instance.reward_token_per_sec = token_per_sec;
    staking_instance.last_reward_timestamp = unix_timestamp as u64;
    staking_instance.accumulated_reward_per_share = 0;
    staking_instance.reward_token_mint = reward_token_mint;
    staking_instance.allowed_collection_address = allowed_collection_address;
}

/// Whether some creator is the collection address and verified.
fn find_verified_creator(creators: &Vec<CreatorInfo>, collection: &Address) -> (r: bool)
    ensures
        r == has_verified_creator(creators@, *collection),
{
    let mut i: usize = 0;
    while i < creators.len()
        invariant
            0 <= i <= creators@.len(),
            forall|j: int|
                0 <= j < i ==> !((#[trigger] creators@[j]).address@ == collection@
                    && creators@[j].verified),
        decreases creators@.len() - i,
    {
        let c = creators[i];
        if c.verified && c.address.same_as(collection) {
            assert(creators@[i as int].address@ == collection@ && creators@[i as int].verified);
            return true;
        }
        i = i + 1;
    }
    false
}

/// Stakes one NFT, given its decoded metadata. The stake goes through only if
/// a verified creator of the NFT is the pool's allowed collection and the
/// metadata describes `nft_mint`; then the pool is brought up to the current
/// time, the user's deposit and the pool's shares grow by one, and the user's
/// debt is reset. A passed-over stake and a refused one change nothing.
pub fn enter_staking_decoded(
    staking_instance: &mut StakingContext,
    user_instance: &mut UserContext,
    metadata: Option<NftMetadata>,
    nft_mint: Address,
    unix_timestamp: i64,
) -> (r: Result<EnterAction, StakingError>)
    ensures
        r == enter_decision(
            *old(staking_instance),
            *old(user_instance),
            metadata_view(metadata),
            nft_mint,
            unix_timestamp as u64,
        ),
        r matches Ok(EnterAction::TransferNft { .. }) ==> {
            &&& *final(staking_instance) == staked_pool(
                *old(staking_instance),
                unix_timestamp as u64,
            )
            &&& *final(user_instance) == staked_user(
                *old(staking_instance),
                *old(user_instance),
                unix_timestamp as u64,
            )
        },
        !(r matches Ok(EnterAction::TransferNft { .. })) ==> {
            &&& *final(staking_instance) == *old(staking_instance)
            &&& *final(user_instance) == *old(user_instance)
        },
{
    let md = match metadata {
        None => return Err(StakingError::MetadataUnreadable),
        Some(md) => md,
    };
    let creators = match &md.creators {
        None => return Err(StakingError::MissingCreators),
        Some(creators) => creators,
    };
    let collection_proper = find_verified_creator(creators, &staking_instance.allowed_collection_address);
    if !collection_proper || !md.mint.same_as(&nft_mint) {
        return Ok(EnterAction::Skip);
    }
    let current_timestamp = unix_timestamp as u64;
    if !can_update_pool(staking_instance, current_timestamp) {
        return Err(StakingError::MathOverflow);
    }
    let mut pool = *staking_instance;
    let mut user = *user_instance;
    update_reward_pool(current_timestamp, &mut pool, &mut user);
    if user.deposited_amount == u64::MAX || pool.total_shares == u64::MAX {
        return Err(StakingError::MathOverflow);
    }
    user.deposited_amount = user.deposited_amount + 1;
    pool.total_shares = pool.total_shares + 1;
    if !can_update_debt(&pool, &user) {
        return Err(StakingError::MathOverflow);
    }
    update_reward_debt(&mut pool, &mut user);
    *staking_instance = pool;
    *user_instance = user;
    Ok(EnterAction::TransferNft { amount: NFT_STAKE_AMOUNT })
}

/// Stakes one NFT whose token-metadata account holds `metadata_account_data`;
/// see `enter_staking_decoded`, applied to what the metadata decoder yields
/// for these bytes.
pub fn enter_staking(
    staking_instance: &mut StakingContext,
    user_instance: &mut UserContext,
    metadata_account_data: &[u8],
    nft_mint: Address,
    unix_timestamp: i64,
) -> (r: Result<EnterAction, StakingError>)
    ensures
        r == enter_decision(
            *old(staking_instance),
            *old(user_instance),
            decoded_metadata(metadata_account_data@),
            nft_mint,
            unix_timestamp as u64,
        ),
        decoded_metadata(metadata_account_data@) is Some ==> forall|pad: Seq<u8>|
            #[trigger] decoded_metadata(metadata_account_data@ + pad) == decoded_metadata(
                metadata_account_data@,
            ),
        r matches Ok(EnterAction::TransferNft { .. }) ==> {
            &&& *final(staking_instance) == staked_pool(
                *old(staking_instance),
                unix_timestamp as u64,
            )
            &&& *final(user_instance) == staked_user(
                *old(staking_instance),
                *old(user_instance),
                unix_timestamp as u64,
            )
        },
        !(r matches Ok(EnterAction::TransferNft { .. })) ==> {
            &&& *final(staking_instance) == *old(staking_instance)
            &&& *final(user_instance) == *old(user_instance)
        },
{
    let metadata = decode_metadata(metadata_account_data);
    enter_staking_decoded(staking_instance, user_instance, metadata, nft_mint, unix_timestamp)
}

} // verus!
