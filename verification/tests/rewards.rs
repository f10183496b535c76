use solana_staking::{
    init_staking, init_user, store_pending_reward, update_reward_debt, update_reward_pool, Address,
    StakingContext, UserContext, COMPUTATION_DECIMALS,
};

fn addr(b: u8) -> Address {
    Address::new([b; 32])
}

fn pool(rate: u64, acc: u64, last: u64, shares: u64) -> StakingContext {
    StakingContext {
        authority: addr(1),
        reward_token_per_sec: rate,
        reward_token_mint: addr(2),
        allowed_collection_address: addr(3),
        accumulated_reward_per_share: acc,
        last_reward_timestamp: last,
        total_shares: shares,
    }
}

fn user(deposited: u64, debt: u64, accumulated: u64) -> UserContext {
    UserContext { deposited_amount: deposited, reward_debt: debt, accumulated_reward: accumulated }
}

#[test]
fn pool_update_shares_income_over_shares() {
    let mut s = pool(10, 0, 100, 4);
    let mut u = user(2, 0, 0);
    update_reward_pool(110, &mut s, &mut u);
    // 10 tokens/s for 10 s, scaled by 10^12, over 4 shares.
    assert_eq!(s.accumulated_reward_per_share, 25_000_000_000_000);
    assert_eq!(s.last_reward_timestamp, 110);
    assert_eq!(s.total_shares, 4);
    assert_eq!((u.deposited_amount, u.reward_debt, u.accumulated_reward), (2, 0, 0));
}

#[test]
fn pool_update_rounds_down() {
    let mut s = pool(1, 7, 0, 3);
    let mut u = user(0, 0, 0);
    update_reward_pool(1, &mut s, &mut u);
    assert_eq!(s.accumulated_reward_per_share, 7 + COMPUTATION_DECIMALS / 3);
    assert_eq!(s.accumulated_reward_per_share, 333_333_333_340);
}

#[test]
fn pool_update_without_shares_only_moves_clock() {
    let mut s = pool(10, 5, 100, 0);
    let mut u = user(0, 0, 0);
    update_reward_pool(1_000, &mut s, &mut u);
    assert_eq!(s.accumulated_reward_per_share, 5);
    assert_eq!(s.last_reward_timestamp, 1_000);
}

#[test]
fn pool_update_twice_at_same_time_changes_nothing() {
    let mut s = pool(3, 11, 50, 7);
    let mut u = user(1, 0, 0);
    update_reward_pool(90, &mut s, &mut u);
    let once = s;
    update_reward_pool(90, &mut s, &mut u);
    assert_eq!(s.accumulated_reward_per_share, once.accumulated_reward_per_share);
    assert_eq!(s.last_reward_timestamp, once.last_reward_timestamp);
}

#[test]
fn store_pending_adds_entitlement_minus_debt() {
    let mut s = pool(0, 25_000_000_000_000, 0, 4);
    let mut u = user(2, 10, 5);
    store_pending_reward(&mut s, &mut u);
    // entitlement 2 * 25 = 50, minus debt 10, added to 5
    assert_eq!(u.accumulated_reward, 45);
    assert_eq!(u.reward_debt, 10);
    assert_eq!(s.accumulated_reward_per_share, 25_000_000_000_000);
}

#[test]
fn debt_update_sets_entitlement() {
    let mut s = pool(0, 1_500_000_000_000, 0, 4);
    let mut u = user(3, 0, 9);
    update_reward_debt(&mut s, &mut u);
    // 3 * 1.5 = 4.5, rounded down
    assert_eq!(u.reward_debt, 4);
    assert_eq!(u.accumulated_reward, 9);
}

#[test]
fn nothing_pending_right_after_debt_update() {
    let mut s = pool(0, 2_750_000_000_000, 0, 4);
    let mut u = user(5, 0, 1);
    update_reward_debt(&mut s, &mut u);
    store_pending_reward(&mut s, &mut u);
    assert_eq!(u.accumulated_reward, 1);
}

#[test]
fn init_staking_sets_pool_and_keeps_shares() {
    let mut s = pool(99, 99, 99, 7);
    init_staking(&mut s, addr(8), 42, 1_700_000_000, addr(9), addr(10));
    assert!(s.authority.same_as(&addr(8)));
    assert_eq!(s.reward_token_per_sec, 42);
    assert_eq!(s.last_reward_timestamp, 1_700_000_000);
    assert_eq!(s.accumulated_reward_per_share, 0);
    assert!(s.reward_token_mint.same_as(&addr(9)));
    assert!(s.allowed_collection_address.same_as(&addr(10)));
    assert_eq!(s.total_shares, 7);
}

#[test]
fn init_staking_takes_negative_time_modulo() {
    let mut s = StakingContext::default();
    init_staking(&mut s, addr(8), 1, -1, addr(9), addr(10));
    assert_eq!(s.last_reward_timestamp, u64::MAX);
    assert_eq!(s.total_shares, 0);
}

#[test]
fn init_user_empties_position() {
    let mut u = user(4, 5, 6);
    init_user(&mut u);
    assert_eq!((u.deposited_amount, u.reward_debt, u.accumulated_reward), (0, 0, 0));
}

#[test]
fn address_comparison() {
    let mut b = [7u8; 32];
    assert!(Address::new(b).same_as(&Address::new([7u8; 32])));
    b[31] = 8;
    assert!(!Address::new(b).same_as(&Address::new([7u8; 32])));
    assert!(Address::default().same_as(&Address::new([0u8; 32])));
}
