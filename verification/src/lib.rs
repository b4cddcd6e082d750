//! Pooled lending-and-payments ledger.
//!
//! Depositors supply liquidity and earn yield, merchants draw working-capital
//! loans against the same pool, and payers settle purchases from a blend of
//! accrued interest, deposited principal, and outside wallet funds.  The crate
//! verifies the accounting engine itself: the utilization-based interest-rate
//! curve, lazy interest accrual, the multi-source payment waterfall, loan
//! underwriting, and the interest-then-principal repayment waterfall.
//!
//! Around the engine sit the merchant registry that underwriting consults,
//! and the subscription factory and manager, whose renewals pay through the
//! same waterfall.
//!
//! Storage, signature checking, the raw token-transfer primitive, and event
//! transport are the host environment's concern; every function here is a pure
//! state transition on plain values.

pub mod accrual;
pub mod deposit;
pub mod errors;
pub mod events;
pub mod factory;
pub mod loans;
pub mod manager;
pub mod payment;
pub mod pool;
pub mod rates;
pub mod registry;
