//! The pool ledger, its reentrancy guard and the operation handlers.
use vstd::prelude::*;
use crate::merkle::{leaf_hash, leaf_of, proof_accepts, verify_proof};
use anchor_lang::solana_program::program_error::ProgramError;

verus! {

#[verifier::external_type_specification]
#[verifier::external_body]
pub struct ExProgramError(ProgramError);

/// Why an operation failed.
#[derive(Clone, Copy, Debug, PartialEq, Eq, Structural)]
pub enum PoolError {
    /// A gated operation is already in flight on this pool.
    ReentrancyGuardActive,
    /// The Merkle proof does not take the caller's leaf to the given root.
    InvalidMerkleProof,
    /// A balance or amount would drop below zero.
    ArithmeticUnderflow,
    /// A balance, fee total or timestamp would leave its integer range.
    ArithmeticOverflow,
    /// A ratio was asked of an empty reserve or a zero denominator.
    DivisionByZero,
    /// The transfer collaborator reported a failure.
    TransferFailed,
    /// The cluster clock could not be read.
    ClockUnavailable,
}

/// The state of one liquidity pool.
#[derive(Clone, Copy, Debug)]
pub struct Pool {
    pub token_a_balance: u64,
    pub token_b_balance: u64,
    pub merkle_root: [u8; 32],
    /// Fee rate in basis points: a swap pays `amount * swap_fee / 10000`.
    pub swap_fee: u64,
    pub lock_until: i64,
    pub mint_lp_token: [u8; 32],
    /// The reentrancy guard: `true` while a gated operation is in flight.
    pub in_progress: bool,
    pub fee_accumulation: u64,
}

/// A price multiplier as a fraction `numerator / denominator`.
#[derive(Clone, Copy, Debug, PartialEq, Eq, Structural)]
pub struct PriceFactor {
    pub numerator: u64,
    pub denominator: u64,
}

/// Basis points in one whole.
pub const FEE_DENOMINATOR: u64 = 10000;

/// The fee rate a new pool starts with (0.3%).
pub const DEFAULT_SWAP_FEE: u64 = 30;

/// The emergency withdrawal penalty, in percent.
pub const EMERGENCY_PENALTY_PERCENT: u64 = 10;

/// The fee withheld from a swap of `amount_in` at rate `swap_fee`.
pub open spec fn fee_of(amount_in: u64, swap_fee: u64) -> int {
    amount_in as int * swap_fee as int / FEE_DENOMINATOR as int
}

/// `floor(amount_in * b / a)`: what a swap of `amount_in` pays out of B at
/// the ratio `b / a`.
pub open spec fn swap_output_of(amount_in: u64, a: u64, b: u64) -> int
    recommends
        a > 0,
{
    amount_in as int * b as int / a as int
}

/// `floor(balance * contribution / 100)`.
pub open spec fn user_share_of(balance: u64, contribution: u64) -> int {
    balance as int * contribution as int / 100
}

/// The part of an emergency withdrawal that is forfeited.
pub open spec fn penalty_of(amount: u64) -> int {
    amount as int * EMERGENCY_PENALTY_PERCENT as int / 100
}

/// A pool whose A reserve is replaced.
pub open spec fn with_a(p: Pool, a: int) -> Pool {
    Pool { token_a_balance: a as u64, ..p }
}

/// A pool whose guard is set to `busy`.
pub open spec fn with_guard(p: Pool, busy: bool) -> Pool {
    Pool { in_progress: busy, ..p }
}

/// A pool whose commitment root is replaced.
pub open spec fn with_merkle_root(p: Pool, root: [u8; 32]) -> Pool {
    Pool { merkle_root: root, ..p }
}

/// The ledger effect of a swap: the new pool and the amount transferred.
pub open spec fn swap_step(p: Pool, amount_in: u64) -> Result<(Pool, u64), PoolError> {
    if p.token_a_balance == 0 {
        Err(PoolError::DivisionByZero)
    } else {
        let out = swap_output_of(amount_in, p.token_a_balance, p.token_b_balance);
        let fee = fee_of(amount_in, p.swap_fee);
        if out > p.token_b_balance {
            Err(PoolError::ArithmeticUnderflow)
        } else if fee > amount_in {
            Err(PoolError::ArithmeticUnderflow)
        } else if p.fee_accumulation + fee > u64::MAX {
            Err(PoolError::ArithmeticOverflow)
        } else if p.token_a_balance + (amount_in - fee) > u64::MAX {
            Err(PoolError::ArithmeticOverflow)
        } else {
            Ok(
                (
                    Pool {
                        token_a_balance: (p.token_a_balance + (amount_in - fee)) as u64,
                        token_b_balance: (p.token_b_balance - out) as u64,
                        fee_accumulation: (p.fee_accumulation + fee) as u64,
                        ..p
                    },
                    amount_in,
                ),
            )
        }
    }
}

/// The ledger effect of claiming a contribution of `amount` percent.
pub open spec fn claim_step(p: Pool, amount: u64) -> Result<(Pool, u64), PoolError> {
    let share = user_share_of(p.token_a_balance, amount);
    if share > p.token_a_balance {
        Err(PoolError::ArithmeticUnderflow)
    } else {
        Ok((with_a(p, p.token_a_balance - share), share as u64))
    }
}

/// The ledger effect of withdrawing exactly `amount`.
pub open spec fn partial_withdraw_step(p: Pool, amount: u64) -> Result<(Pool, u64), PoolError> {
    if amount > p.token_a_balance {
        Err(PoolError::ArithmeticUnderflow)
    } else {
        Ok((with_a(p, p.token_a_balance - amount), amount))
    }
}

/// The ledger effect of an emergency withdrawal of `amount`: the penalty
/// stays out of the transfer and is credited nowhere.
pub open spec fn emergency_withdraw_step(p: Pool, amount: u64) -> Result<(Pool, u64), PoolError> {
    let paid = amount - penalty_of(amount);
    if paid > p.token_a_balance {
        Err(PoolError::ArithmeticUnderflow)
    } else {
        Ok((with_a(p, p.token_a_balance - paid), paid as u64))
    }
}

/// What a gated operation does to the pool `before`, given whether the
/// caller's proof was accepted and the operation's ledger step: the
/// reentrancy check comes first, then the proof, then the ledger. On
/// success the guard stays busy until the transfer is settled; on any
/// failure the pool is left as it was.
pub open spec fn gated_outcome(
    before: Pool,
    after: Pool,
    r: Result<u64, PoolError>,
    accepted: bool,
    step: Result<(Pool, u64), PoolError>,
) -> bool {
    if before.in_progress {
        r == Err::<u64, PoolError>(PoolError::ReentrancyGuardActive) && after == before
    } else if !accepted {
        r == Err::<u64, PoolError>(PoolError::InvalidMerkleProof) && after == before
    } else {
        match step {
            Err(e) => r == Err::<u64, PoolError>(e) && after == before,
            Ok((p, amount)) => r == Ok::<u64, PoolError>(amount) && after == with_guard(p, true),
        }
    }
}

/// Whether `proof` admits `user` with `amount` under `root`.
pub open spec fn admitted(user: [u8; 32], amount: u64, proof: Seq<[u8; 32]>, root: [u8; 32]) -> bool {
    proof_accepts(leaf_of(user@, amount), proof, root@)
}


/// `floor(amount_in * token_b_balance / token_a_balance)`, or `None` when
/// the A reserve is empty and the ratio is undefined.
pub fn swap_output(amount_in: u64, token_a_balance: u64, token_b_balance: u64) -> (r: Option<u128>)
    ensures
        token_a_balance == 0 ==> r is None,
        token_a_balance > 0 ==> r == Some(
            swap_output_of(amount_in, token_a_balance, token_b_balance) as u128,
        ),
        token_a_balance > 0 ==> swap_output_of(amount_in, token_a_balance, token_b_balance)
            <= u128::MAX,
{
    if token_a_balance == 0 {
        return None;
    }
    let x = amount_in as u128;
    let y = token_b_balance as u128;
    assert(x * y <= u64::MAX as int * u64::MAX as int) by (nonlinear_arith)
        requires
            x <= u64::MAX,
            y <= u64::MAX,
    ;
    let prod = x * y;
    proof {
        assert(prod as int / token_a_balance as int <= prod as int) by (nonlinear_arith)
            requires
                token_a_balance >= 1,
                prod >= 0,
        ;
    }
    Some(prod / (token_a_balance as u128))
}

/// The fee withheld from a swap of `amount_in` at `swap_fee` basis points.
pub fn swap_fee_amount(amount_in: u64, swap_fee: u64) -> (r: u128)
    ensures
        r == fee_of(amount_in, swap_fee),
{
    let x = amount_in as u128;
    let y = swap_fee as u128;
    assert(x * y <= u64::MAX as int * u64::MAX as int) by (nonlinear_arith)
        requires
            x <= u64::MAX,
            y <= u64::MAX,
    ;
    x * y / (FEE_DENOMINATOR as u128)
}

/// A liquidity provider's share of `pool_balance` for a contribution given
/// in percent: `floor(pool_balance * user_contribution / 100)`.
pub fn calculate_user_share(pool_balance: u64, user_contribution: u64) -> (r: u128)
    ensures
        r == user_share_of(pool_balance, user_contribution),
{
    let x = pool_balance as u128;
    let y = user_contribution as u128;
    assert(x * y <= u64::MAX as int * u64::MAX as int) by (nonlinear_arith)
        requires
            x <= u64::MAX,
            y <= u64::MAX,
    ;
    x * y / 100
}

/// The forfeited part of an emergency withdrawal of `amount` (10%, rounded
/// down).
pub fn emergency_penalty(amount: u64) -> (r: u64)
    ensures
        r == penalty_of(amount),
        r <= amount,
{
    let a = amount as u128;
    assert(a * 10 <= u64::MAX as int * 10 && a * 10 / 100 <= a) by (nonlinear_arith)
        requires
            a <= u64::MAX,
    ;
    let p = a * (EMERGENCY_PENALTY_PERCENT as u128) / 100;
    p as u64
}

/// A new pool: empty reserves, no fees collected, the default fee rate and
/// the guard idle.
pub fn initialize_pool(initial_root: [u8; 32], mint_lp_token: [u8; 32]) -> (r: Pool)
    ensures
        r.token_a_balance == 0,
        r.token_b_balance == 0,
        r.merkle_root == initial_root,
        r.mint_lp_token == mint_lp_token,
        r.in_progress == false,
        r.swap_fee == DEFAULT_SWAP_FEE,
        r.fee_accumulation == 0,
        r.lock_until == 0,
{
    Pool {
        token_a_balance: 0,
        token_b_balance: 0,
        merkle_root: initial_root,
        swap_fee: DEFAULT_SWAP_FEE,
        lock_until: 0,
        mint_lp_token,
        in_progress: false,
        fee_accumulation: 0,
    }
}

/// A swap of `amount_in` whose proof check came out `accepted`. On success
/// the result is the amount to transfer and the guard stays busy.
pub fn swap_gated(pool: &mut Pool, accepted: bool, amount_in: u64) -> (r: Result<u64, PoolError>)
    ensures
        gated_outcome(*old(pool), *final(pool), r, accepted, swap_step(*old(pool), amount_in)),
{
    if pool.in_progress {
        return Err(PoolError::ReentrancyGuardActive);
    }
    if !accepted {
        return Err(PoolError::InvalidMerkleProof);
    }
    let out = match swap_output(amount_in, pool.token_a_balance, pool.token_b_balance) {
        None => {
            return Err(PoolError::DivisionByZero);
        },
        Some(out) => out,
    };
    let fee = swap_fee_amount(amount_in, pool.swap_fee);
    if out > pool.token_b_balance as u128 {
        return Err(PoolError::ArithmeticUnderflow);
    }
    if fee > amount_in as u128 {
        return Err(PoolError::ArithmeticUnderflow);
    }
    let fee = fee as u64;
    let out = out as u64;
    if pool.fee_accumulation > u64::MAX - fee {
        return Err(PoolError::ArithmeticOverflow);
    }
    let credited = amount_in - fee;
    if pool.token_a_balance > u64::MAX - credited {
        return Err(PoolError::ArithmeticOverflow);
    }
    pool.in_progress = true;
    pool.fee_accumulation = pool.fee_accumulation + fee;
    pool.token_a_balance = pool.token_a_balance + credited;
    pool.token_b_balance = pool.token_b_balance - out;
    Ok(amount_in)
}

/// A claim of a contribution of `amount` percent whose proof check came out
/// `accepted`. On success the result is the share to transfer.
pub fn claim_gated(pool: &mut Pool, accepted: bool, amount: u64) -> (r: Result<u64, PoolError>)
    ensures
        gated_outcome(*old(pool), *final(pool), r, accepted, claim_step(*old(pool), amount)),
{
    if pool.in_progress {
        return Err(PoolError::ReentrancyGuardActive);
    }
    if !accepted {
        return Err(PoolError::InvalidMerkleProof);
    }
    let share = calculate_user_share(pool.token_a_balance, amount);
    if share > pool.token_a_balance as u128 {
        return Err(PoolError::ArithmeticUnderflow);
    }
    let share = share as u64;
    pool.in_progress = true;
    pool.token_a_balance = pool.token_a_balance - share;
    Ok(share)
}

/// A withdrawal of exactly `withdraw_amount` whose proof check came out
/// `accepted`.
pub fn partial_withdraw_gated(pool: &mut Pool, accepted: bool, withdraw_amount: u64) -> (r: Result<
    u64,
    PoolError,
>)
    ensures
        gated_outcome(
            *old(pool),
            *final(pool),
            r,
            accepted,
            partial_withdraw_step(*old(pool), withdraw_amount),
        ),
{
    if pool.in_progress {
        return Err(PoolError::ReentrancyGuardActive);
    }
    if !accepted {
        return Err(PoolError::InvalidMerkleProof);
    }
    if withdraw_amount > pool.token_a_balance {
        return Err(PoolError::ArithmeticUnderflow);
    }
    pool.in_progress = true;
    pool.token_a_balance = pool.token_a_balance - withdraw_amount;
    Ok(withdraw_amount)
}

/// An emergency withdrawal of `withdraw_amount` whose proof check came out
/// `accepted`: the pool pays out the amount less the penalty.
pub fn emergency_withdraw_gated(pool: &mut Pool, accepted: bool, withdraw_amount: u64) -> (r: Result<
    u64,
    PoolError,
>)
    ensures
        gated_outcome(
            *old(pool),
            *final(pool),
            r,
            accepted,
            emergency_withdraw_step(*old(pool), withdraw_amount),
        ),
{
    if pool.in_progress {
        return Err(PoolError::ReentrancyGuardActive);
    }
    if !accepted {
        return Err(PoolError::InvalidMerkleProof);
    }
    let penalty = emergency_penalty(withdraw_amount);
    let paid = withdraw_amount - penalty;
    if paid > pool.token_a_balance {
        return Err(PoolError::ArithmeticUnderflow);
    }
    pool.in_progress = true;
    pool.token_a_balance = pool.token_a_balance - paid;
    Ok(paid)
}

/// Swaps `amount_in` of token A for token B at the pool's ratio, open to a
/// caller whose `(user, amount_in)` leaf `proof` takes to `root`. On success
/// the result is the amount to move from the caller's A account to their B
/// account, and the guard stays busy until `settle_transfer`.
pub fn swap_tokens(
    pool: &mut Pool,
    user: &[u8; 32],
    amount_in: u64,
    proof: &Vec<[u8; 32]>,
    root: &[u8; 32],
) -> (r: Result<u64, PoolError>)
    ensures
        gated_outcome(
            *old(pool),
            *final(pool),
            r,
            admitted(*user, amount_in, proof@, *root),
            swap_step(*old(pool), amount_in),
        ),
{
    let leaf = leaf_hash(user, amount_in);
    let accepted = verify_proof(&leaf, proof, root);
    swap_gated(pool, accepted, amount_in)
}

/// Pays a liquidity provider their share for a contribution of `amount`
/// percent, open to a caller whose `(user, amount)` leaf `proof` takes to
/// `root`. On success the result is the share to move from the pool's
/// account to the caller's.
pub fn claim_liquidity(
    pool: &mut Pool,
    user: &[u8; 32],
    proof: &Vec<[u8; 32]>,
    root: &[u8; 32],
    amount: u64,
) -> (r: Result<u64, PoolError>)
    ensures
        gated_outcome(
            *old(pool),
            *final(pool),
            r,
            admitted(*user, amount, proof@, *root),
            claim_step(*old(pool), amount),
        ),
{
    let leaf = leaf_hash(user, amount);
    let accepted = verify_proof(&leaf, proof, root);
    claim_gated(pool, accepted, amount)
}

/// Withdraws exactly `withdraw_amount` from the A reserve, open to a caller
/// whose `(user, withdraw_amount)` leaf `proof` takes to `root`.
pub fn partial_withdraw(
    pool: &mut Pool,
    user: &[u8; 32],
    proof: &Vec<[u8; 32]>,
    root: &[u8; 32],
    withdraw_amount: u64,
) -> (r: Result<u64, PoolError>)
    ensures
        gated_outcome(
            *old(pool),
            *final(pool),
            r,
            admitted(*user, withdraw_amount, proof@, *root),
            partial_withdraw_step(*old(pool), withdraw_amount),
        ),
{
    let leaf = leaf_hash(user, withdraw_amount);
    let accepted = verify_proof(&leaf, proof, root);
    partial_withdraw_gated(pool, accepted, withdraw_amount)
}

/// Withdraws `withdraw_amount` less a 10% penalty from the A reserve, open
/// to a caller whose `(user, withdraw_amount)` leaf `proof` takes to `root`.
pub fn emergency_withdraw(
    pool: &mut Pool,
    user: &[u8; 32],
    proof: &Vec<[u8; 32]>,
    root: &[u8; 32],
    withdraw_amount: u64,
) -> (r: Result<u64, PoolError>)
    ensures
        gated_outcome(
            *old(pool),
            *final(pool),
            r,
            admitted(*user, withdraw_amount, proof@, *root),
            emergency_withdraw_step(*old(pool), withdraw_amount),
        ),
{
    let leaf = leaf_hash(user, withdraw_amount);
    let accepted = verify_proof(&leaf, proof, root);
    emergency_withdraw_gated(pool, accepted, withdraw_amount)
}

/// Ends the gated operation in flight once the transfer collaborator has
/// answered. The guard is released either way; when the transfer failed the
/// ledger goes back to `prior`, the pool as it stood before the operation.
pub fn settle_transfer(pool: &mut Pool, prior: &Pool, transferred: bool) -> (r: Result<(), PoolError>)
    ensures
        transferred ==> r == Ok::<(), PoolError>(()) && *final(pool) == with_guard(*old(pool), false),
        !transferred ==> r == Err::<(), PoolError>(PoolError::TransferFailed) && *final(pool)
            == with_guard(*prior, false),
{
    if transferred {
        pool.in_progress = false;
        Ok(())
    } else {
        *pool = *prior;
        pool.in_progress = false;
        Err(PoolError::TransferFailed)
    }
}

/// Replaces the commitment root (governance; authority is checked by the
/// caller).
pub fn update_merkle_root(pool: &mut Pool, new_root: [u8; 32])
    ensures
        *final(pool) == with_merkle_root(*old(pool), new_root),
{
    pool.merkle_root = new_root;
}

/// Records the fee rate decided by a governance vote.
pub fn vote_on_pool_parameters(pool: &mut Pool, new_fee: u64)
    ensures
        *final(pool) == (Pool { swap_fee: new_fee, ..*old(pool) }),
{
    pool.swap_fee = new_fee;
}

/// Relies on `Clock::get` (the clock sysvar of solana_program): the
/// cluster's Unix time, or the error that reading the sysvar gave.
#[verifier::external_body]
fn clock_unix_timestamp() -> (r: Result<i64, ProgramError>) {
    <anchor_lang::solana_program::clock::Clock as anchor_lang::solana_program::sysvar::Sysvar>::get().map(
        |c| c.unix_timestamp,
    )
}

/// Sets the lock to `now + lock_time`; fails, leaving the pool as it was,
/// where that sum leaves the `i64` range.
pub fn lock_liquidity_at(pool: &mut Pool, now: i64, lock_time: i64) -> (r: Result<(), PoolError>)
    ensures
        (now + lock_time < i64::MIN || now + lock_time > i64::MAX) ==> r == Err::<(), PoolError>(
            PoolError::ArithmeticOverflow,
        ) && *final(pool) == *old(pool),
        i64::MIN <= now + lock_time <= i64::MAX ==> r == Ok::<(), PoolError>(()) && *final(pool) == (
        Pool { lock_until: (now + lock_time) as i64, ..*old(pool) }),
{
    match now.checked_add(lock_time) {
        Some(until) => {
            pool.lock_until = until;
            Ok(())
        },
        None => Err(PoolError::ArithmeticOverflow),
    }
}

/// Locks liquidity until `lock_time` seconds after the cluster clock's
/// current time. The lock is recorded only: no withdrawal consults it.
pub fn lock_liquidity(pool: &mut Pool, lock_time: i64) -> (r: Result<(), PoolError>)
    ensures
        r == Err::<(), PoolError>(PoolError::ClockUnavailable) ==> *final(pool) == *old(pool),
        r == Err::<(), PoolError>(PoolError::ArithmeticOverflow) ==> *final(pool) == *old(pool),
        r is Ok ==> *final(pool) == (Pool { lock_until: final(pool).lock_until, ..*old(pool) }),
        r is Err ==> r == Err::<(), PoolError>(PoolError::ClockUnavailable) || r == Err::<
            (),
            PoolError,
        >(PoolError::ArithmeticOverflow),
{
    match clock_unix_timestamp() {
        Ok(now) => lock_liquidity_at(pool, now, lock_time),
        Err(_) => Err(PoolError::ClockUnavailable),
    }
}

/// The stand-in for an oracle's price adjustment: a fixed 5% increase.
pub fn adjust_pool_ratio_based_on_external_factors() -> (r: PriceFactor)
    ensures
        r == (PriceFactor { numerator: 105, denominator: 100 }),
{
    PriceFactor { numerator: 105, denominator: 100 }
}

/// `floor(balance * numerator / denominator)`.
pub open spec fn rebalanced_of(balance: u64, factor: PriceFactor) -> int
    recommends
        factor.denominator > 0,
{
    balance as int * factor.numerator as int / factor.denominator as int
}

/// Scales the A reserve by `factor`, rounding down. Fails, leaving the pool
/// as it was, on a zero denominator or where the result leaves the `u64`
/// range.
pub fn rebalance_pool(pool: &mut Pool, factor: PriceFactor) -> (r: Result<(), PoolError>)
    ensures
        factor.denominator == 0 ==> r == Err::<(), PoolError>(PoolError::DivisionByZero)
            && *final(pool) == *old(pool),
        factor.denominator > 0 && rebalanced_of(old(pool).token_a_balance, factor) > u64::MAX
            ==> r == Err::<(), PoolError>(PoolError::ArithmeticOverflow) && *final(pool) == *old(
            pool,
        ),
        factor.denominator > 0 && rebalanced_of(old(pool).token_a_balance, factor) <= u64::MAX
            ==> r == Ok::<(), PoolError>(()) && *final(pool) == with_a(
            *old(pool),
            rebalanced_of(old(pool).token_a_balance, factor),
        ),
{
    if factor.denominator == 0 {
        return Err(PoolError::DivisionByZero);
    }
    let x = pool.token_a_balance as u128;
    let y = factor.numerator as u128;
    assert(x * y <= u64::MAX as int * u64::MAX as int) by (nonlinear_arith)
        requires
            x <= u64::MAX,
            y <= u64::MAX,
    ;
    let scaled = x * y / (factor.denominator as u128);
    if scaled > u64::MAX as u128 {
        return Err(PoolError::ArithmeticOverflow);
    }
    pool.token_a_balance = scaled as u64;
    Ok(())
}

} // verus!
