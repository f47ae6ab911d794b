use merkle_liquidity_pool_swap::merkle::{combine, leaf_hash};
use merkle_liquidity_pool_swap::pool::{
    adjust_pool_ratio_based_on_external_factors, calculate_user_share, claim_gated,
    claim_liquidity, emergency_penalty, emergency_withdraw, emergency_withdraw_gated,
    initialize_pool, lock_liquidity, lock_liquidity_at, partial_withdraw, partial_withdraw_gated,
    rebalance_pool, settle_transfer, swap_fee_amount, swap_gated, swap_output, swap_tokens,
    update_merkle_root, vote_on_pool_parameters, Pool, PoolError, PriceFactor, DEFAULT_SWAP_FEE,
};

const USER: [u8; 32] = [21u8; 32];
const MINT: [u8; 32] = [99u8; 32];

fn funded_pool(a: u64, b: u64) -> Pool {
    let mut p = initialize_pool([0u8; 32], MINT);
    p.token_a_balance = a;
    p.token_b_balance = b;
    p
}

/// A one-sibling proof for `(USER, amount)` and the root it reaches.
fn membership(amount: u64) -> (Vec<[u8; 32]>, [u8; 32]) {
    let sibling = [0x5au8; 32];
    let root = combine(&leaf_hash(&USER, amount), &sibling);
    (vec![sibling], root)
}

fn same_state(x: &Pool, y: &Pool) -> bool {
    x.token_a_balance == y.token_a_balance
        && x.token_b_balance == y.token_b_balance
        && x.merkle_root == y.merkle_root
        && x.swap_fee == y.swap_fee
        && x.lock_until == y.lock_until
        && x.mint_lp_token == y.mint_lp_token
        && x.in_progress == y.in_progress
        && x.fee_accumulation == y.fee_accumulation
}

#[test]
fn initialize_sets_defaults() {
    let p = initialize_pool([4u8; 32], MINT);
    assert_eq!(p.token_a_balance, 0);
    assert_eq!(p.token_b_balance, 0);
    assert_eq!(p.merkle_root, [4u8; 32]);
    assert_eq!(p.mint_lp_token, MINT);
    assert!(!p.in_progress);
    assert_eq!(p.swap_fee, DEFAULT_SWAP_FEE);
    assert_eq!(p.swap_fee, 30);
    assert_eq!(p.fee_accumulation, 0);
}

#[test]
fn swap_on_empty_pool_fails() {
    let mut p = initialize_pool([0u8; 32], MINT);
    let (proof, root) = membership(100);
    let before = p;
    assert_eq!(swap_tokens(&mut p, &USER, 100, &proof, &root), Err(PoolError::DivisionByZero));
    assert!(same_state(&p, &before));
    assert!(!p.in_progress);
}

#[test]
fn swap_at_small_scale_pays_no_fee() {
    let mut p = funded_pool(1000, 2000);
    let (proof, root) = membership(100);
    assert_eq!(swap_tokens(&mut p, &USER, 100, &proof, &root), Ok(100));
    assert_eq!(p.token_a_balance, 1100);
    assert_eq!(p.token_b_balance, 1800);
    assert_eq!(p.fee_accumulation, 0);
    assert!(p.in_progress);
    let prior = p;
    assert_eq!(settle_transfer(&mut p, &prior, true), Ok(()));
    assert!(!p.in_progress);
    assert_eq!(p.token_a_balance, 1100);
}

#[test]
fn swap_fee_is_withheld_from_a_side() {
    let mut p = funded_pool(1_000_000, 3_000_000);
    assert_eq!(swap_gated(&mut p, true, 10_000), Ok(10_000));
    // fee = 10_000 * 30 / 10_000 = 30; out = 10_000 * 3 = 30_000
    assert_eq!(p.fee_accumulation, 30);
    assert_eq!(p.token_a_balance, 1_000_000 + 10_000 - 30);
    assert_eq!(p.token_b_balance, 3_000_000 - 30_000);
}

#[test]
fn swap_sequence_accumulates_each_fee() {
    let mut p = funded_pool(500_000, 700_000);
    let amounts = [10_000u64, 333, 25_000, 1];
    let mut fees = 0u64;
    let mut total_in = 0u64;
    for amount in amounts {
        let fee = amount * p.swap_fee / 10000;
        let prior = p;
        assert_eq!(swap_gated(&mut p, true, amount), Ok(amount));
        assert_eq!(settle_transfer(&mut p, &prior, true), Ok(()));
        fees += fee;
        total_in += amount;
    }
    assert_eq!(p.fee_accumulation, fees);
    assert_eq!(p.token_a_balance + fees, 500_000 + total_in);
    assert!(p.token_b_balance <= 700_000);
}

#[test]
fn swap_rounds_output_down() {
    let mut p = funded_pool(3, 10);
    assert_eq!(swap_gated(&mut p, true, 1), Ok(1));
    assert_eq!(p.token_b_balance, 10 - 3);
    assert_eq!(swap_output(1, 3, 10), Some(3));
    assert_eq!(swap_output(1, 0, 10), None);
}

#[test]
fn swap_draining_more_than_b_fails() {
    let mut p = funded_pool(10, 100);
    let before = p;
    assert_eq!(swap_gated(&mut p, true, 11), Err(PoolError::ArithmeticUnderflow));
    assert!(same_state(&p, &before));
}

#[test]
fn swap_fee_above_whole_fails() {
    let mut p = funded_pool(100, 100);
    vote_on_pool_parameters(&mut p, 20_000);
    let before = p;
    assert_eq!(swap_gated(&mut p, true, 10), Err(PoolError::ArithmeticUnderflow));
    assert!(same_state(&p, &before));
}

#[test]
fn swap_fee_total_overflow_fails() {
    let mut p = funded_pool(100, 100);
    p.fee_accumulation = u64::MAX;
    vote_on_pool_parameters(&mut p, 10_000);
    let before = p;
    assert_eq!(swap_gated(&mut p, true, 10), Err(PoolError::ArithmeticOverflow));
    assert!(same_state(&p, &before));
}

#[test]
fn swap_reserve_overflow_fails() {
    let mut p = funded_pool(u64::MAX - 5, 0);
    let before = p;
    assert_eq!(swap_gated(&mut p, true, 10), Err(PoolError::ArithmeticOverflow));
    assert!(same_state(&p, &before));
}

#[test]
fn invalid_proof_is_rejected_and_guard_stays_idle() {
    let mut p = funded_pool(1000, 2000);
    let (proof, root) = membership(100);
    let before = p;
    assert_eq!(swap_tokens(&mut p, &USER, 101, &proof, &root), Err(PoolError::InvalidMerkleProof));
    assert!(same_state(&p, &before));
    let mut wrong_root = root;
    wrong_root[3] ^= 1;
    assert_eq!(
        partial_withdraw(&mut p, &USER, &proof, &wrong_root, 100),
        Err(PoolError::InvalidMerkleProof)
    );
    assert_eq!(swap_tokens(&mut p, &[22u8; 32], 100, &proof, &root), Err(PoolError::InvalidMerkleProof));
    assert!(same_state(&p, &before));
    assert!(!p.in_progress);
}

#[test]
fn reentrant_calls_are_rejected_while_busy() {
    let mut p = funded_pool(1000, 2000);
    let (proof, root) = membership(100);
    assert_eq!(swap_tokens(&mut p, &USER, 100, &proof, &root), Ok(100));
    let busy = p;
    assert_eq!(swap_tokens(&mut p, &USER, 100, &proof, &root), Err(PoolError::ReentrancyGuardActive));
    assert_eq!(claim_liquidity(&mut p, &USER, &proof, &root, 100), Err(PoolError::ReentrancyGuardActive));
    assert_eq!(partial_withdraw(&mut p, &USER, &proof, &root, 100), Err(PoolError::ReentrancyGuardActive));
    assert_eq!(emergency_withdraw(&mut p, &USER, &proof, &root, 100), Err(PoolError::ReentrancyGuardActive));
    assert!(same_state(&p, &busy));
    assert_eq!(p.token_a_balance, 1100);
    assert_eq!(p.token_b_balance, 1800);
}

#[test]
fn failed_transfer_restores_pool_and_releases_guard() {
    let mut p = funded_pool(1000, 2000);
    let prior = p;
    assert_eq!(partial_withdraw_gated(&mut p, true, 400), Ok(400));
    assert_eq!(p.token_a_balance, 600);
    assert_eq!(settle_transfer(&mut p, &prior, false), Err(PoolError::TransferFailed));
    assert!(same_state(&p, &prior));
    assert_eq!(partial_withdraw_gated(&mut p, true, 400), Ok(400));
}

#[test]
fn claim_pays_percentage_share() {
    let mut p = funded_pool(1000, 0);
    let (proof, root) = membership(25);
    assert_eq!(claim_liquidity(&mut p, &USER, &proof, &root, 25), Ok(250));
    assert_eq!(p.token_a_balance, 750);
    assert_eq!(calculate_user_share(999, 33), 329);
    assert_eq!(calculate_user_share(1000, 100), 1000);
}

#[test]
fn claim_above_whole_pool_fails() {
    let mut p = funded_pool(1000, 0);
    let before = p;
    assert_eq!(claim_gated(&mut p, true, 101), Err(PoolError::ArithmeticUnderflow));
    assert!(same_state(&p, &before));
    assert_eq!(claim_gated(&mut p, true, 100), Ok(1000));
    assert_eq!(p.token_a_balance, 0);
}

#[test]
fn partial_withdraw_debits_exact_amount() {
    let mut p = funded_pool(1000, 0);
    let (proof, root) = membership(1000);
    assert_eq!(partial_withdraw(&mut p, &USER, &proof, &root, 1000), Ok(1000));
    assert_eq!(p.token_a_balance, 0);
}

#[test]
fn withdrawal_beyond_reserves_fails_without_wrapping() {
    let mut p = funded_pool(1000, 0);
    let (proof, root) = membership(1001);
    let before = p;
    assert_eq!(partial_withdraw(&mut p, &USER, &proof, &root, 1001), Err(PoolError::ArithmeticUnderflow));
    assert!(same_state(&p, &before));
    assert_eq!(emergency_withdraw_gated(&mut p, true, 2000), Err(PoolError::ArithmeticUnderflow));
    assert_eq!(partial_withdraw_gated(&mut p, true, u64::MAX), Err(PoolError::ArithmeticUnderflow));
    assert!(same_state(&p, &before));
    assert!(!p.in_progress);
}

#[test]
fn emergency_withdraw_keeps_ten_percent_penalty() {
    let mut p = funded_pool(5000, 0);
    let (proof, root) = membership(1000);
    assert_eq!(emergency_penalty(1000), 100);
    assert_eq!(emergency_withdraw(&mut p, &USER, &proof, &root, 1000), Ok(900));
    assert_eq!(p.token_a_balance, 4100);
    assert_eq!(p.fee_accumulation, 0);
}

#[test]
fn emergency_withdraw_penalty_rounds_down() {
    assert_eq!(emergency_penalty(9), 0);
    assert_eq!(emergency_penalty(19), 1);
    assert_eq!(emergency_penalty(u64::MAX), u64::MAX / 10);
    let mut p = funded_pool(900, 0);
    assert_eq!(emergency_withdraw_gated(&mut p, true, 1000), Ok(900));
    assert_eq!(p.token_a_balance, 0);
}

#[test]
fn update_root_twice_equals_once() {
    let mut once = funded_pool(10, 20);
    let mut twice = once;
    update_merkle_root(&mut once, [8u8; 32]);
    update_merkle_root(&mut twice, [8u8; 32]);
    update_merkle_root(&mut twice, [8u8; 32]);
    assert!(same_state(&once, &twice));
    assert_eq!(once.merkle_root, [8u8; 32]);
}

#[test]
fn vote_sets_fee() {
    let mut p = funded_pool(10, 20);
    vote_on_pool_parameters(&mut p, 55);
    assert_eq!(p.swap_fee, 55);
    assert_eq!(swap_fee_amount(10_000, 55), 55);
    assert_eq!(swap_fee_amount(100, 30), 0);
}

#[test]
fn lock_at_time_adds_offset() {
    let mut p = funded_pool(10, 20);
    assert_eq!(lock_liquidity_at(&mut p, 1_700_000_000, 3600), Ok(()));
    assert_eq!(p.lock_until, 1_700_003_600);
    let before = p;
    assert_eq!(lock_liquidity_at(&mut p, i64::MAX, 1), Err(PoolError::ArithmeticOverflow));
    assert!(same_state(&p, &before));
}

#[test]
fn lock_without_cluster_clock_fails() {
    let mut p = funded_pool(10, 20);
    let before = p;
    assert_eq!(lock_liquidity(&mut p, 60), Err(PoolError::ClockUnavailable));
    assert!(same_state(&p, &before));
}

#[test]
fn rebalance_scales_a_reserve() {
    let mut p = funded_pool(1000, 20);
    let factor = adjust_pool_ratio_based_on_external_factors();
    assert_eq!(factor, PriceFactor { numerator: 105, denominator: 100 });
    assert_eq!(rebalance_pool(&mut p, factor), Ok(()));
    assert_eq!(p.token_a_balance, 1050);
    assert_eq!(rebalance_pool(&mut p, factor), Ok(()));
    assert_eq!(p.token_a_balance, 1102);
    assert_eq!(p.token_b_balance, 20);
}

#[test]
fn rebalance_rejects_bad_factors() {
    let mut p = funded_pool(u64::MAX, 0);
    let before = p;
    assert_eq!(
        rebalance_pool(&mut p, PriceFactor { numerator: 1, denominator: 0 }),
        Err(PoolError::DivisionByZero)
    );
    assert_eq!(
        rebalance_pool(&mut p, PriceFactor { numerator: 2, denominator: 1 }),
        Err(PoolError::ArithmeticOverflow)
    );
    assert!(same_state(&p, &before));
}
