//! Rate model: utilization, borrow APR, and deposit APR computed from the
//! pool aggregates.  All rates are integers in basis points (1/100 of 1%).

use vstd::arithmetic::div_mod::{
    lemma_div_is_ordered, lemma_div_multiples_vanish, lemma_div_pos_is_pos,
};
use vstd::arithmetic::mul::{lemma_mul_inequality, lemma_mul_nonnegative, lemma_mul_upper_bound};
use vstd::prelude::*;

verus! {

/// One hundred percent, in basis points.
pub const BASIS_POINT_SCALE: u64 = 10_000;

/// Fraction (in basis points) of deposited funds currently borrowed:
/// zero when nothing is deposited, else `borrowed * 10000 / deposited`,
/// truncated down and then to 64 bits.
pub open spec fn spec_utilization(total_deposited: u64, total_borrowed: u64) -> u64 {
    if total_deposited == 0 {
        0u64
    } else {
        (total_borrowed as int * BASIS_POINT_SCALE as int / total_deposited as int) as u64
    }
}

/// Borrow APR: `base_rate + utilization * slope / 10000`.  The premium is
/// dropped (treated as zero) when it does not fit in 64 bits, and the final
/// addition saturates at `u64::MAX`.
pub open spec fn spec_borrow_apr(base_rate: u64, utilization_slope: u64, utilization: u64) -> u64 {
    let premium = utilization as int * utilization_slope as int / BASIS_POINT_SCALE as int;
    let premium_64: int = if premium > u64::MAX { 0 } else { premium };
    if base_rate + premium_64 > u64::MAX {
        u64::MAX
    } else {
        (base_rate + premium_64) as u64
    }
}

/// Deposit APR: `borrow_apr * utilization / 10000 * (100 - fee_percent) / 100`,
/// computed exactly in a wide intermediate and clamped to `u64::MAX`.
pub open spec fn spec_deposit_apr(borrow_apr: u64, utilization: u64, protocol_fee_percent: u8) -> u64
    recommends
        protocol_fee_percent <= 100,
{
    let wide = borrow_apr as int * utilization as int / BASIS_POINT_SCALE as int
        * (100 - protocol_fee_percent) as int / 100;
    if wide > u64::MAX {
        u64::MAX
    } else {
        wide as u64
    }
}

/// Utilization of the pool in basis points.
pub fn utilization(total_deposited: u64, total_borrowed: u64) -> (r: u64)
    ensures
        r == spec_utilization(total_deposited, total_borrowed),
{
    if total_deposited == 0 {
        0
    } else {
        proof {
            lemma_mul_upper_bound(
                total_borrowed as int,
                u64::MAX as int,
                BASIS_POINT_SCALE as int,
                BASIS_POINT_SCALE as int,
            );
            lemma_mul_nonnegative(total_borrowed as int, BASIS_POINT_SCALE as int);
        }
        let wide: u128 = (total_borrowed as u128) * (BASIS_POINT_SCALE as u128)
            / (total_deposited as u128);
        #[verifier::truncate] (wide as u64)
    }
}

/// Borrow APR for the given pool aggregates, in basis points.
pub fn calculate_borrow_apr(
    base_rate: u64,
    utilization_slope: u64,
    total_deposited: u64,
    total_borrowed: u64,
) -> (r: u64)
    ensures
        r == spec_borrow_apr(
            base_rate,
            utilization_slope,
            spec_utilization(total_deposited, total_borrowed),
        ),
{
    let utilization_rate = utilization(total_deposited, total_borrowed);
    proof {
        lemma_mul_upper_bound(
            utilization_rate as int,
            u64::MAX as int,
            utilization_slope as int,
            u64::MAX as int,
        );
        lemma_mul_nonnegative(utilization_rate as int, utilization_slope as int);
    }
    let premium_wide: u128 = (utilization_rate as u128) * (utilization_slope as u128)
        / (BASIS_POINT_SCALE as u128);
    let premium: u64 = if premium_wide > u64::MAX as u128 {
        0
    } else {
        premium_wide as u64
    };
    base_rate.saturating_add(premium)
}

/// Deposit APR derived from the borrow APR, the utilization, and the
/// protocol's fee cut, in basis points.
pub fn calculate_deposit_apr(
    borrow_apr: u64,
    utilization_rate: u64,
    protocol_fee_percent: u8,
) -> (r: u64)
    requires
        protocol_fee_percent <= 100,
    ensures
        r == spec_deposit_apr(borrow_apr, utilization_rate, protocol_fee_percent),
{
    proof {
        lemma_mul_upper_bound(
            borrow_apr as int,
            u64::MAX as int,
            utilization_rate as int,
            u64::MAX as int,
        );
        lemma_mul_nonnegative(borrow_apr as int, utilization_rate as int);
        lemma_div_pos_is_pos(
            borrow_apr as int * utilization_rate as int,
            BASIS_POINT_SCALE as int,
        );
        lemma_mul_upper_bound(
            borrow_apr as int * utilization_rate as int / BASIS_POINT_SCALE as int,
            u128::MAX as int / 10_000,
            (100 - protocol_fee_percent) as int,
            100,
        );
        lemma_mul_nonnegative(
            borrow_apr as int * utilization_rate as int / BASIS_POINT_SCALE as int,
            (100 - protocol_fee_percent) as int,
        );
    }
    let scaled: u128 = (borrow_apr as u128) * (utilization_rate as u128)
        / (BASIS_POINT_SCALE as u128);
    let after_fee: u128 = scaled * ((100 - protocol_fee_percent) as u128) / 100;
    if after_fee > u64::MAX as u128 {
        u64::MAX
    } else {
        after_fee as u64
    }
}

/// While no more is borrowed than is deposited, utilization stays within one
/// hundred percent, that is within `[0, 10000]` basis points.
pub proof fn lemma_utilization_in_range(total_deposited: u64, total_borrowed: u64)
    requires
        total_borrowed <= total_deposited,
    ensures
        spec_utilization(total_deposited, total_borrowed) <= BASIS_POINT_SCALE,
{
    if total_deposited != 0 {
        let d = total_deposited as int;
        let b = total_borrowed as int;
        lemma_mul_inequality(b, d, BASIS_POINT_SCALE as int);
        lemma_div_is_ordered(b * BASIS_POINT_SCALE, d * BASIS_POINT_SCALE, d);
        lemma_div_multiples_vanish(BASIS_POINT_SCALE as int, d);
        lemma_mul_nonnegative(b, BASIS_POINT_SCALE as int);
        lemma_div_pos_is_pos(b * BASIS_POINT_SCALE, d);
    }
}

/// Whenever the protocol takes any fee at all, depositors earn no more than
/// borrowers pay, as long as utilization is within one hundred percent.
pub proof fn lemma_deposit_apr_le_borrow_apr(
    borrow_apr: u64,
    utilization: u64,
    protocol_fee_percent: u8,
)
    requires
        0 < protocol_fee_percent <= 100,
        utilization <= BASIS_POINT_SCALE,
    ensures
        spec_deposit_apr(borrow_apr, utilization, protocol_fee_percent) <= borrow_apr,
{
    let ba = borrow_apr as int;
    let u = utilization as int;
    let f = (100 - protocol_fee_percent) as int;
    let scale = BASIS_POINT_SCALE as int;
    let scaled = ba * u / scale;
    lemma_mul_nonnegative(ba, u);
    lemma_div_pos_is_pos(ba * u, scale);
    lemma_mul_inequality(u, scale, ba);
    lemma_div_is_ordered(ba * u, scale * ba, scale);
    lemma_div_multiples_vanish(ba, scale);
    assert(scaled <= ba);
    lemma_mul_nonnegative(scaled, f);
    lemma_div_pos_is_pos(scaled * f, 100);
    lemma_mul_inequality(f, 100, scaled);
    lemma_div_is_ordered(scaled * f, 100 * scaled, 100);
    lemma_div_multiples_vanish(scaled, 100);
    assert(scaled * f / 100 <= scaled);
}

/// An empty pool pays depositors nothing: with zero deposits the utilization
/// is zero, and a zero utilization drives the deposit APR to zero.
pub proof fn lemma_deposit_apr_zero_when_pool_empty(
    borrow_apr: u64,
    total_borrowed: u64,
    protocol_fee_percent: u8,
)
    requires
        protocol_fee_percent <= 100,
    ensures
        spec_utilization(0, total_borrowed) == 0,
        spec_deposit_apr(borrow_apr, 0, protocol_fee_percent) == 0,
{
    let f = (100 - protocol_fee_percent) as int;
    lemma_div_multiples_vanish(0, BASIS_POINT_SCALE as int);
    assert(borrow_apr as int * 0 == 0);
    assert(0int * f == 0);
    lemma_div_multiples_vanish(0, 100);
}

/// The borrow APR never falls below the configured base rate, whatever the
/// utilization and slope.
pub proof fn lemma_borrow_apr_at_least_base(base_rate: u64, utilization_slope: u64, utilization: u64)
    ensures
        spec_borrow_apr(base_rate, utilization_slope, utilization) >= base_rate,
{
    lemma_mul_nonnegative(utilization as int, utilization_slope as int);
    lemma_div_pos_is_pos(utilization as int * utilization_slope, BASIS_POINT_SCALE as int);
}

} // verus!
