//! The pool aggregate: one record per asset pool holding the running totals
//! and the rate-curve configuration, plus the read-only rate queries.

use crate::errors::ErrorCode;
use crate::rates::{
    calculate_borrow_apr, calculate_deposit_apr, spec_borrow_apr, spec_deposit_apr,
    spec_utilization, utilization,
};
use vstd::prelude::*;

verus! {

/// Aggregate state of one liquidity pool.
#[derive(Clone, Copy, Debug, PartialEq, Eq, Structural)]
pub struct PoolState {
    /// Identity of the pool's administrative authority.
    pub authority: u64,
    /// Sum of all live deposits, maintained with saturating arithmetic.
    pub total_deposited: u64,
    /// Sum of all outstanding loan principal, maintained with saturating
    /// arithmetic.
    pub total_borrowed: u64,
    /// Base interest rate in basis points.
    pub base_rate: u64,
    /// Utilization multiplier in basis points.
    pub utilization_slope: u64,
    /// Protocol fee percentage, between 0 and 100.
    pub protocol_fee_percent: u8,
}

impl PoolState {
    /// A pool is well formed when its fee is a percentage.
    pub open spec fn wf(self) -> bool {
        self.protocol_fee_percent <= 100
    }

    /// Utilization of this pool, in basis points.
    pub open spec fn spec_utilization(self) -> u64 {
        spec_utilization(self.total_deposited, self.total_borrowed)
    }

    /// Borrow APR of this pool, in basis points.
    pub open spec fn spec_borrow_apr(self) -> u64 {
        spec_borrow_apr(self.base_rate, self.utilization_slope, self.spec_utilization())
    }

    /// Deposit APR of this pool, in basis points.
    pub open spec fn spec_deposit_apr(self) -> u64 {
        spec_deposit_apr(self.spec_borrow_apr(), self.spec_utilization(), self.protocol_fee_percent)
    }
}

/// Sets up a pool with the given rate configuration and no funds.  Rejects a
/// protocol fee above one hundred percent and accepts everything else.
pub fn initialize(
    authority: u64,
    base_rate: u64,
    utilization_slope: u64,
    protocol_fee_percent: u8,
) -> (r: Result<PoolState, ErrorCode>)
    ensures
        protocol_fee_percent > 100 ==> r == Err::<PoolState, ErrorCode>(
            ErrorCode::InvalidFeePercentage,
        ),
        protocol_fee_percent <= 100 ==> r == Ok::<PoolState, ErrorCode>(
            (PoolState {
                authority,
                total_deposited: 0,
                total_borrowed: 0,
                base_rate,
                utilization_slope,
                protocol_fee_percent,
            }),
        ),
        r matches Ok(pool) ==> pool.wf(),
{
    if protocol_fee_percent > 100 {
        return Err(ErrorCode::InvalidFeePercentage);
    }
    Ok(
        PoolState {
            authority,
            total_deposited: 0,
            total_borrowed: 0,
            base_rate,
            utilization_slope,
            protocol_fee_percent,
        },
    )
}

/// Current borrow APR of the pool, recomputed from the live aggregates on
/// every call; nothing is cached.
pub fn get_borrow_apr(pool_state: &PoolState) -> (r: u64)
    ensures
        r == pool_state.spec_borrow_apr(),
{
    calculate_borrow_apr(
        pool_state.base_rate,
        pool_state.utilization_slope,
        pool_state.total_deposited,
        pool_state.total_borrowed,
    )
}

/// Current deposit APR of the pool, recomputed from the live aggregates on
/// every call; nothing is cached.
pub fn get_deposit_apr(pool_state: &PoolState) -> (r: u64)
    requires
        pool_state.wf(),
    ensures
        r == pool_state.spec_deposit_apr(),
{
    let borrow_apr = get_borrow_apr(pool_state);
    let utilization_rate = utilization(pool_state.total_deposited, pool_state.total_borrowed);
    calculate_deposit_apr(borrow_apr, utilization_rate, pool_state.protocol_fee_percent)
}

/// Rate queries are idempotent: they are pure functions of the pool
/// aggregate, so two queries with no mutation in between return the same
/// borrow APR and the same deposit APR.
pub proof fn lemma_rate_queries_idempotent(first: PoolState, second: PoolState)
    requires
        first == second,
    ensures
        first.spec_borrow_apr() == second.spec_borrow_apr(),
        first.spec_deposit_apr() == second.spec_deposit_apr(),
{
}

} // verus!
