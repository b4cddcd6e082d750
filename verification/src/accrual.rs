//! Lazy interest accrual.  Interest owed since the last recorded timestamp is
//! computed on access from a single point-in-time rate sample: the APR the
//! rate model reports at the moment of the triggering call, applied across
//! the whole elapsed interval.  The per-second rate is an integer (floor)
//! division, so short intervals or small balances truncate to zero; that
//! precision loss is part of the model.

use crate::rates::{
    calculate_borrow_apr, calculate_deposit_apr, spec_borrow_apr, spec_deposit_apr,
    spec_utilization, utilization, BASIS_POINT_SCALE,
};
use vstd::arithmetic::div_mod::lemma_div_is_ordered;
use vstd::arithmetic::mul::{lemma_mul_nonnegative, lemma_mul_upper_bound};
use vstd::prelude::*;

verus! {

/// Seconds in the 365-day year the rate model uses: `365 * 24 * 60 * 60`.
pub const SECONDS_PER_YEAR: u64 = 31_536_000;

/// Per-second interest rate obtained from an APR in basis points: the APR
/// divided by `10000 * SECONDS_PER_YEAR`, truncated down.
pub open spec fn spec_per_second_rate(apr: u64) -> int {
    apr as int / (BASIS_POINT_SCALE as int * SECONDS_PER_YEAR as int)
}

/// Interest a balance earns between `last` and `now` at the sampled `apr`:
/// zero for an empty balance or a non-advancing clock, else
/// `amount * per_second_rate * elapsed_seconds`, where a product too large
/// for 64 bits collapses to zero.
pub open spec fn spec_accrued_interest(amount: u64, apr: u64, last: i64, now: i64) -> u64 {
    if amount == 0 || last >= now {
        0u64
    } else {
        let raw = amount as int * spec_per_second_rate(apr) * (now - last);
        if raw > u64::MAX {
            0u64
        } else {
            raw as u64
        }
    }
}

/// `amount * per_second_rate(apr) * elapsed`, with the oversized results
/// collapsed to zero exactly as `spec_accrued_interest` states.
fn scaled_interest(amount: u64, apr: u64, elapsed: u64) -> (r: u64)
    ensures
        r == ({
            let raw = amount as int * spec_per_second_rate(apr) * elapsed as int;
            if raw > u64::MAX {
                0u64
            } else {
                raw as u64
            }
        }),
{
    let denominator: u128 = (BASIS_POINT_SCALE as u128) * (SECONDS_PER_YEAR as u128);
    assert(denominator == 315_360_000_000u128) by (nonlinear_arith)
        requires
            denominator == 10_000u128 * 31_536_000u128,
    ;
    let rate: u128 = (apr as u128) / denominator;
    proof {
        lemma_div_is_ordered(apr as int, u64::MAX as int, denominator as int);
        lemma_mul_upper_bound(
            amount as int,
            u64::MAX as int,
            rate as int,
            u64::MAX as int / denominator as int,
        );
        lemma_mul_nonnegative(amount as int, rate as int);
    }
    let first: u128 = (amount as u128) * rate;
    let second: u128 = match first.checked_mul(elapsed as u128) {
        Some(product) => product,
        None => u128::MAX,
    };
    if second > u64::MAX as u128 {
        0
    } else {
        second as u64
    }
}

/// Interest earned by a deposit since `last_calculation`, at the deposit APR
/// the pool aggregates yield right now.
pub fn calculate_interest(
    amount: u64,
    last_calculation: i64,
    current_timestamp: i64,
    base_rate: u64,
    utilization_slope: u64,
    protocol_fee_percent: u8,
    total_deposited: u64,
    total_borrowed: u64,
) -> (r: u64)
    requires
        protocol_fee_percent <= 100,
        last_calculation >= 0,
    ensures
        r == spec_accrued_interest(
            amount,
            spec_deposit_apr(
                spec_borrow_apr(
                    base_rate,
                    utilization_slope,
                    spec_utilization(total_deposited, total_borrowed),
                ),
                spec_utilization(total_deposited, total_borrowed),
                protocol_fee_percent,
            ),
            last_calculation,
            current_timestamp,
        ),
{
    if amount == 0 || last_calculation >= current_timestamp {
        return 0;
    }
    let time_elapsed: u64 = (current_timestamp - last_calculation) as u64;
    let borrow_apr = calculate_borrow_apr(
        base_rate,
        utilization_slope,
        total_deposited,
        total_borrowed,
    );
    let utilization_rate = utilization(total_deposited, total_borrowed);
    let deposit_apr = calculate_deposit_apr(borrow_apr, utilization_rate, protocol_fee_percent);
    scaled_interest(amount, deposit_apr, time_elapsed)
}

/// Interest accrued on a loan since `last_repayment`, at the borrow APR the
/// pool aggregates yield right now.  This dynamic rate is used for actual
/// loan accrual; underwriting limits use a separate fixed rate.
pub fn calculate_loan_interest(
    principal: u64,
    last_repayment: i64,
    current_timestamp: i64,
    base_rate: u64,
    utilization_slope: u64,
    total_deposited: u64,
    total_borrowed: u64,
) -> (r: u64)
    requires
        last_repayment >= 0,
    ensures
        r == spec_accrued_interest(
            principal,
            spec_borrow_apr(
                base_rate,
                utilization_slope,
                spec_utilization(total_deposited, total_borrowed),
            ),
            last_repayment,
            current_timestamp,
        ),
{
    if principal == 0 || last_repayment >= current_timestamp {
        return 0;
    }
    let time_elapsed: u64 = (current_timestamp - last_repayment) as u64;
    let borrow_apr = calculate_borrow_apr(
        base_rate,
        utilization_slope,
        total_deposited,
        total_borrowed,
    );
    scaled_interest(principal, borrow_apr, time_elapsed)
}

/// Accrual only ever adds: folding newly accrued interest into an earned
/// balance never decreases it.  The earned balance decreases only when a
/// payment explicitly consumes it.
pub proof fn lemma_accrual_monotonic(interest_earned: u64, accrued: u64)
    ensures
        interest_earned.saturating_add(accrued) >= interest_earned,
{
}

} // verus!
