use borsh::BorshSerialize;
use mpl_token_metadata::solana_program::pubkey::Pubkey;
use mpl_token_metadata::state::{Creator, Data, Key, Metadata};
use solana_staking::{
    claim_rewards, enter_staking, enter_staking_decoded, Address, CreatorInfo, EnterAction,
    NftMetadata, StakingContext, StakingError, UserContext,
};

const COLLECTION: u8 = 3;
const MINT: u8 = 40;

fn addr(b: u8) -> Address {
    Address::new([b; 32])
}

fn pool(rate: u64, acc: u64, last: u64, shares: u64) -> StakingContext {
    StakingContext {
        authority: addr(1),
        reward_token_per_sec: rate,
        reward_token_mint: addr(2),
        allowed_collection_address: addr(COLLECTION),
        accumulated_reward_per_share: acc,
        last_reward_timestamp: last,
        total_shares: shares,
    }
}

fn user(deposited: u64, debt: u64, accumulated: u64) -> UserContext {
    UserContext { deposited_amount: deposited, reward_debt: debt, accumulated_reward: accumulated }
}

fn creators(list: &[(u8, bool)]) -> Option<Vec<CreatorInfo>> {
    Some(list.iter().map(|(a, v)| CreatorInfo { address: addr(*a), verified: *v }).collect())
}

fn meta(mint: u8, list: &[(u8, bool)]) -> Option<NftMetadata> {
    Some(NftMetadata { mint: addr(mint), creators: creators(list) })
}

fn same_pool(a: &StakingContext, b: &StakingContext) -> bool {
    a.authority.same_as(&b.authority)
        && a.reward_token_per_sec == b.reward_token_per_sec
        && a.reward_token_mint.same_as(&b.reward_token_mint)
        && a.allowed_collection_address.same_as(&b.allowed_collection_address)
        && a.accumulated_reward_per_share == b.accumulated_reward_per_share
        && a.last_reward_timestamp == b.last_reward_timestamp
        && a.total_shares == b.total_shares
}

fn same_user(a: &UserContext, b: &UserContext) -> bool {
    a.deposited_amount == b.deposited_amount
        && a.reward_debt == b.reward_debt
        && a.accumulated_reward == b.accumulated_reward
}

fn metadata_bytes(mint: u8, list: Option<&[(u8, bool)]>) -> Vec<u8> {
    let md = Metadata {
        key: Key::MetadataV1,
        update_authority: Pubkey::new_from_array([9; 32]),
        mint: Pubkey::new_from_array([mint; 32]),
        data: Data {
            name: "Staked Ape".to_string(),
            symbol: "APE".to_string(),
            uri: "https://example.com/ape.json".to_string(),
            seller_fee_basis_points: 500,
            creators: list.map(|l| {
                l.iter()
                    .map(|(a, v)| Creator {
                        address: Pubkey::new_from_array([*a; 32]),
                        verified: *v,
                        share: 100,
                    })
                    .collect()
            }),
        },
        primary_sale_happened: false,
        is_mutable: true,
        edition_nonce: None,
        token_standard: None,
        collection: None,
        uses: None,
        collection_details: None,
        programmable_config: None,
    };
    md.try_to_vec().unwrap()
}

#[test]
fn enter_accepts_nft_of_allowed_collection() {
    let mut s = pool(10, 0, 100, 4);
    let mut u = user(2, 0, 7);
    let r = enter_staking_decoded(&mut s, &mut u, meta(MINT, &[(5, true), (COLLECTION, true)]), addr(MINT), 110);
    assert_eq!(r, Ok(EnterAction::TransferNft { amount: 1 }));
    assert_eq!(s.accumulated_reward_per_share, 25_000_000_000_000);
    assert_eq!(s.last_reward_timestamp, 110);
    assert_eq!(s.total_shares, 5);
    assert_eq!(u.deposited_amount, 3);
    assert_eq!(u.reward_debt, 75);
    // pending reward is not stored on entry
    assert_eq!(u.accumulated_reward, 7);
}

#[test]
fn enter_skips_unverified_or_foreign_or_wrong_mint() {
    for (m, list, mint) in [
        (MINT, vec![(COLLECTION, false)], MINT),
        (MINT, vec![(6, true)], MINT),
        (MINT, vec![], MINT),
        (MINT, vec![(COLLECTION, true)], MINT + 1),
    ] {
        let mut s = pool(10, 0, 100, 4);
        let mut u = user(2, 0, 0);
        let before = (s, u);
        let r = enter_staking_decoded(&mut s, &mut u, meta(m, &list), addr(mint), 110);
        assert_eq!(r, Ok(EnterAction::Skip));
        assert!(same_pool(&s, &before.0));
        assert!(same_user(&u, &before.1));
    }
}

#[test]
fn enter_skip_comes_before_clock_check() {
    let mut s = pool(10, 0, 100, 4);
    let mut u = user(0, 0, 0);
    let r = enter_staking_decoded(&mut s, &mut u, meta(MINT, &[(6, true)]), addr(MINT), 50);
    assert_eq!(r, Ok(EnterAction::Skip));
}

#[test]
fn enter_refuses_missing_metadata_or_creators() {
    let mut s = pool(10, 0, 100, 4);
    let mut u = user(0, 0, 0);
    let r = enter_staking_decoded(&mut s, &mut u, None, addr(MINT), 110);
    assert_eq!(r, Err(StakingError::MetadataUnreadable));
    let r = enter_staking_decoded(
        &mut s,
        &mut u,
        Some(NftMetadata { mint: addr(MINT), creators: None }),
        addr(MINT + 1),
        50,
    );
    assert_eq!(r, Err(StakingError::MissingCreators));
    assert_eq!(s.total_shares, 4);
    assert_eq!(u.deposited_amount, 0);
}

#[test]
fn enter_refuses_clock_before_last_update() {
    let mut s = pool(10, 0, 100, 4);
    let mut u = user(0, 0, 0);
    let r = enter_staking_decoded(&mut s, &mut u, meta(MINT, &[(COLLECTION, true)]), addr(MINT), 99);
    assert_eq!(r, Err(StakingError::MathOverflow));
    assert_eq!(s.last_reward_timestamp, 100);
    assert_eq!(s.total_shares, 4);
}

#[test]
fn enter_refuses_overflowing_deposit_or_shares() {
    let mut s = pool(10, 0, 100, 4);
    let mut u = user(u64::MAX, 0, 0);
    let r = enter_staking_decoded(&mut s, &mut u, meta(MINT, &[(COLLECTION, true)]), addr(MINT), 110);
    assert_eq!(r, Err(StakingError::MathOverflow));
    assert_eq!(s.last_reward_timestamp, 100);
    let mut s = pool(10, 0, 100, u64::MAX);
    let mut u = user(0, 0, 0);
    let r = enter_staking_decoded(&mut s, &mut u, meta(MINT, &[(COLLECTION, true)]), addr(MINT), 110);
    assert_eq!(r, Err(StakingError::MathOverflow));
    assert_eq!(u.deposited_amount, 0);
}

#[test]
fn enter_refuses_overflowing_income() {
    let mut s = pool(u64::MAX, 0, 100, 4);
    let mut u = user(0, 0, 0);
    let r = enter_staking_decoded(&mut s, &mut u, meta(MINT, &[(COLLECTION, true)]), addr(MINT), 102);
    assert_eq!(r, Err(StakingError::MathOverflow));
    // income fits, but scaled income does not
    let mut s = pool(1, 0, 0, 4);
    let r = enter_staking_decoded(&mut s, &mut u, meta(MINT, &[(COLLECTION, true)]), addr(MINT), 20_000_000);
    assert_eq!(r, Err(StakingError::MathOverflow));
    assert_eq!(s.last_reward_timestamp, 0);
}

#[test]
fn enter_decodes_metadata_account_bytes() {
    let bytes = metadata_bytes(MINT, Some(&[(COLLECTION, true)]));
    let mut s = pool(10, 0, 100, 0);
    let mut u = user(0, 0, 0);
    let r = enter_staking(&mut s, &mut u, &bytes, addr(MINT), 100);
    assert_eq!(r, Ok(EnterAction::TransferNft { amount: 1 }));
    assert_eq!(s.total_shares, 1);
    assert_eq!(u.deposited_amount, 1);

    let r = enter_staking(&mut s, &mut u, &bytes, addr(MINT + 1), 100);
    assert_eq!(r, Ok(EnterAction::Skip));
    let unverified = metadata_bytes(MINT, Some(&[(COLLECTION, false)]));
    let r = enter_staking(&mut s, &mut u, &unverified, addr(MINT), 100);
    assert_eq!(r, Ok(EnterAction::Skip));
    assert_eq!(s.total_shares, 1);
}

#[test]
fn enter_refuses_undecodable_bytes_and_no_creators() {
    let mut s = pool(10, 0, 100, 0);
    let mut u = user(0, 0, 0);
    let r = enter_staking(&mut s, &mut u, &[4, 1, 2], addr(MINT), 100);
    assert_eq!(r, Err(StakingError::MetadataUnreadable));
    let r = enter_staking(&mut s, &mut u, &metadata_bytes(MINT, None), addr(MINT), 100);
    assert_eq!(r, Err(StakingError::MissingCreators));
    assert_eq!(s.total_shares, 0);
}

#[test]
fn claim_all_mints_accumulated_plus_pending() {
    let mut s = pool(10, 0, 100, 4);
    let mut u = user(2, 0, 7);
    let r = claim_rewards(&mut s, &mut u, 0, 110);
    // pending 2 * 25 = 50, plus 7 already accumulated
    assert_eq!(r, Ok(57));
    assert_eq!(u.accumulated_reward, 0);
    assert_eq!(u.reward_debt, 50);
    assert_eq!(s.accumulated_reward_per_share, 25_000_000_000_000);
    assert_eq!(s.last_reward_timestamp, 110);
    // a second claim at the same time finds nothing
    let r = claim_rewards(&mut s, &mut u, 0, 110);
    assert_eq!(r, Ok(0));
}

#[test]
fn claim_part_keeps_rest() {
    let mut s = pool(10, 0, 100, 4);
    let mut u = user(2, 0, 7);
    let r = claim_rewards(&mut s, &mut u, 20, 110);
    assert_eq!(r, Ok(20));
    assert_eq!(u.accumulated_reward, 37);
    assert_eq!(u.reward_debt, 50);
}

#[test]
fn claim_more_than_accumulated_is_refused() {
    let mut s = pool(10, 0, 100, 4);
    let mut u = user(2, 0, 7);
    let r = claim_rewards(&mut s, &mut u, 58, 110);
    assert_eq!(r, Err(StakingError::ClaimExceedsReward));
    assert_eq!(s.last_reward_timestamp, 100);
    assert_eq!(s.accumulated_reward_per_share, 0);
    assert_eq!(u.accumulated_reward, 7);
    assert_eq!(u.reward_debt, 0);
}

#[test]
fn claim_refuses_clock_before_last_update() {
    let mut s = pool(10, 0, 100, 4);
    let mut u = user(2, 0, 7);
    let r = claim_rewards(&mut s, &mut u, 1, 90);
    assert_eq!(r, Err(StakingError::MathOverflow));
    assert_eq!(u.accumulated_reward, 7);
}

#[test]
fn claim_refuses_debt_above_entitlement() {
    let mut s = pool(0, 1_000_000_000_000, 100, 4);
    let mut u = user(2, 3, 7);
    let r = claim_rewards(&mut s, &mut u, 1, 110);
    assert_eq!(r, Err(StakingError::MathOverflow));
    assert_eq!(u.reward_debt, 3);
}

#[test]
fn shares_track_deposits_of_all_users() {
    let mut s = pool(10, 0, 100, 0);
    let mut a = user(0, 0, 0);
    let mut b = user(0, 0, 0);
    let m = || meta(MINT, &[(COLLECTION, true)]);
    enter_staking_decoded(&mut s, &mut a, m(), addr(MINT), 100).unwrap();
    enter_staking_decoded(&mut s, &mut b, m(), addr(MINT), 110).unwrap();
    enter_staking_decoded(&mut s, &mut a, m(), addr(MINT), 120).unwrap();
    claim_rewards(&mut s, &mut b, 0, 130).unwrap();
    assert_eq!(s.total_shares, a.deposited_amount + b.deposited_amount);
    assert_eq!(s.total_shares, 3);
}

#[test]
fn other_users_stay_claimable_after_a_stake() {
    let mut s = pool(10, 0, 100, 0);
    let mut a = user(0, 0, 0);
    let mut b = user(0, 0, 0);
    let m = || meta(MINT, &[(COLLECTION, true)]);
    enter_staking_decoded(&mut s, &mut a, m(), addr(MINT), 100).unwrap();
    // a alone earns 10/s for 10 s
    enter_staking_decoded(&mut s, &mut b, m(), addr(MINT), 110).unwrap();
    // then a and b share 10/s for 10 s
    assert_eq!(claim_rewards(&mut s, &mut a, 0, 120), Ok(150));
    assert_eq!(claim_rewards(&mut s, &mut b, 0, 120), Ok(50));
}

#[test]
fn restaking_does_not_store_pending_reward() {
    let mut s = pool(10, 0, 100, 0);
    let mut a = user(0, 0, 0);
    let m = || meta(MINT, &[(COLLECTION, true)]);
    enter_staking_decoded(&mut s, &mut a, m(), addr(MINT), 100).unwrap();
    enter_staking_decoded(&mut s, &mut a, m(), addr(MINT), 110).unwrap();
    // the 100 tokens earned in the first 10 s are not carried over
    assert_eq!(claim_rewards(&mut s, &mut a, 0, 110), Ok(0));
}
