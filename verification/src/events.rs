//! Structured events.  Each successful pool operation reports one event
//! carrying the actors, the amounts moved, and the resulting balances, for
//! outside observability and indexing.  Identities are plain account numbers;
//! how they are addressed and transported is the host environment's concern.

use vstd::prelude::*;

verus! {

/// Funds entered the pool.
#[derive(Clone, Copy, Debug, PartialEq, Eq, Structural)]
pub struct DepositEvent {
    pub user: u64,
    pub token_mint: u64,
    /// Amount added by this deposit.
    pub amount: u64,
    /// The depositor's balance after the deposit.
    pub total_deposited: u64,
    pub timestamp: i64,
}

/// Funds left the pool at the depositor's request.
#[derive(Clone, Copy, Debug, PartialEq, Eq, Structural)]
pub struct WithdrawEvent {
    pub user: u64,
    pub token_mint: u64,
    /// Amount removed by this withdrawal.
    pub amount: u64,
    /// The depositor's balance after the withdrawal.
    pub remaining_deposit: u64,
    pub timestamp: i64,
}

/// A payment was routed to a merchant, split across its three sources.
#[derive(Clone, Copy, Debug, PartialEq, Eq, Structural)]
pub struct PaymentEvent {
    pub user: u64,
    pub merchant: u64,
    pub token_mint: u64,
    /// The full amount the merchant received.
    pub total_amount: u64,
    /// Portion covered by the payer's accrued interest.
    pub from_interest: u64,
    /// Portion covered by the payer's deposited principal.
    pub from_deposit: u64,
    /// Portion funded directly from the payer's outside wallet.
    pub from_wallet: u64,
    pub timestamp: i64,
}

/// A merchant drew a loan from the pool.
#[derive(Clone, Copy, Debug, PartialEq, Eq, Structural)]
pub struct BorrowEvent {
    pub merchant: u64,
    pub token_mint: u64,
    /// Amount drawn by this loan.
    pub amount: u64,
    /// The underwriting limit computed for this request.
    pub borrow_limit: u64,
    /// Outstanding balance after this draw, as underwriting measures it.
    pub current_outstanding: u64,
    pub timestamp: i64,
}

/// A merchant repaid part or all of a loan.
#[derive(Clone, Copy, Debug, PartialEq, Eq, Structural)]
pub struct RepaymentEvent {
    pub merchant: u64,
    pub token_mint: u64,
    /// The portion of the payment the ledger credited (the effective
    /// repayment); the nominal token transfer may have been larger.
    pub amount: u64,
    /// Portion of the effective repayment applied to accrued interest.
    pub to_interest: u64,
    /// Portion of the effective repayment applied to principal.
    pub to_principal: u64,
    /// Loan principal left after this repayment.
    pub remaining_principal: u64,
    pub timestamp: i64,
}

} // verus!
