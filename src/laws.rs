//! Properties that hold across the pool's operations.
use vstd::prelude::*;
use crate::pool::{
    Pool, PoolError, emergency_withdraw_step, fee_of, gated_outcome, partial_withdraw_step,
    penalty_of, swap_output_of, swap_step, with_merkle_root,
};

verus! {

/// The pool after swapping each amount of `amounts` in turn, or the first
/// error met.
pub open spec fn swap_run(p: Pool, amounts: Seq<u64>) -> Result<Pool, PoolError>
    decreases amounts.len(),
{
    if amounts.len() == 0 {
        Ok(p)
    } else {
        match swap_run(p, amounts.drop_last()) {
            Err(e) => Err(e),
            Ok(q) => match swap_step(q, amounts.last()) {
                Err(e) => Err(e),
                Ok((q2, _)) => Ok(q2),
            },
        }
    }
}

/// The sum of the amounts.
pub open spec fn total_in(amounts: Seq<u64>) -> int
    decreases amounts.len(),
{
    if amounts.len() == 0 {
        0
    } else {
        total_in(amounts.drop_last()) + amounts.last()
    }
}

/// The sum of the fees that swaps of `amounts` pay at rate `swap_fee`.
pub open spec fn total_fees(amounts: Seq<u64>, swap_fee: u64) -> int
    decreases amounts.len(),
{
    if amounts.len() == 0 {
        0
    } else {
        total_fees(amounts.drop_last(), swap_fee) + fee_of(amounts.last(), swap_fee)
    }
}

/// One swap pays out of B what the A it takes in is worth at the pool's
/// ratio before the swap, rounded down: `out * a <= amount_in * b <
/// (out + 1) * a`.
pub proof fn lemma_swap_pays_at_ratio(p: Pool, amount_in: u64)
    requires
        swap_step(p, amount_in) is Ok,
    ensures
        ({
            let q = swap_step(p, amount_in)->Ok_0.0;
            let out = p.token_b_balance - q.token_b_balance;
            &&& out == swap_output_of(amount_in, p.token_a_balance, p.token_b_balance)
            &&& out * p.token_a_balance <= amount_in * p.token_b_balance
            &&& amount_in * p.token_b_balance < (out + 1) * p.token_a_balance
        }),
{
    let a = p.token_a_balance as int;
    let x = amount_in as int * p.token_b_balance as int;
    let out = x / a;
    assert(out * a <= x && x < (out + 1) * a) by (nonlinear_arith)
        requires
            a > 0,
            x >= 0,
            out == x / a,
    ;
}

/// Over any run of swaps that succeeds, the fees collected grow by exactly
/// the sum of the swaps' fees, the A reserve grows by what came in less
/// those fees, B never grows, and nothing else but the reserves and the fee
/// total changes.
pub proof fn lemma_swap_run_conserves(p: Pool, amounts: Seq<u64>)
    requires
        swap_run(p, amounts) is Ok,
    ensures
        ({
            let q = swap_run(p, amounts)->Ok_0;
            &&& q.fee_accumulation == p.fee_accumulation + total_fees(amounts, p.swap_fee)
            &&& q.token_a_balance + total_fees(amounts, p.swap_fee) == p.token_a_balance
                + total_in(amounts)
            &&& q.token_b_balance <= p.token_b_balance
            &&& q.swap_fee == p.swap_fee
            &&& q.merkle_root == p.merkle_root
            &&& q.lock_until == p.lock_until
            &&& q.mint_lp_token == p.mint_lp_token
            &&& q.in_progress == p.in_progress
        }),
    decreases amounts.len(),
{
    if amounts.len() > 0 {
        lemma_swap_run_conserves(p, amounts.drop_last());
    }
}

/// While the guard is busy, a gated operation fails with the reentrancy
/// error and leaves the pool exactly as it was, whatever the proof and the
/// ledger step.
pub proof fn lemma_busy_guard_rejects(
    before: Pool,
    after: Pool,
    r: Result<u64, PoolError>,
    accepted: bool,
    step: Result<(Pool, u64), PoolError>,
)
    requires
        before.in_progress,
        gated_outcome(before, after, r, accepted, step),
    ensures
        r == Err::<u64, PoolError>(PoolError::ReentrancyGuardActive),
        after == before,
{
}

/// A partial withdrawal of more than the A reserve fails with an underflow
/// and leaves the pool as it was; it never wraps.
pub proof fn lemma_partial_overdraw_fails(
    before: Pool,
    after: Pool,
    r: Result<u64, PoolError>,
    amount: u64,
)
    requires
        !before.in_progress,
        gated_outcome(before, after, r, true, partial_withdraw_step(before, amount)),
        amount > before.token_a_balance,
    ensures
        r == Err::<u64, PoolError>(PoolError::ArithmeticUnderflow),
        after == before,
{
}

/// An emergency withdrawal whose payout (the amount less the penalty)
/// exceeds the A reserve fails with an underflow and leaves the pool as it
/// was.
pub proof fn lemma_emergency_overdraw_fails(
    before: Pool,
    after: Pool,
    r: Result<u64, PoolError>,
    amount: u64,
)
    requires
        !before.in_progress,
        gated_outcome(before, after, r, true, emergency_withdraw_step(before, amount)),
        amount - penalty_of(amount) > before.token_a_balance,
    ensures
        r == Err::<u64, PoolError>(PoolError::ArithmeticUnderflow),
        after == before,
{
}

/// Setting the same root twice leaves the pool as setting it once.
pub proof fn lemma_update_root_idempotent(p: Pool, root: [u8; 32])
    ensures
        with_merkle_root(with_merkle_root(p, root), root) == with_merkle_root(p, root),
{
}

} // verus!
