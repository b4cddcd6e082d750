use rwrd_programs::errors::ErrorCode;
use rwrd_programs::events::{BorrowEvent, RepaymentEvent};
use rwrd_programs::loans::{
    borrow, calculate_borrow_limit, calculate_trust_score, get_outstanding_loan_amount,
    get_outstanding_loan_amount_option, repay_loan, LoanStatus, MerchantLoanAccount,
};
use rwrd_programs::pool::PoolState;
use rwrd_programs::registry::{register_merchant, MerchantAccount, MerchantInfo};

fn blank_info() -> MerchantInfo {
    MerchantInfo { name: [0; 32], category: [0; 16], location: [0; 32], website: [0; 64] }
}

fn verified_merchant() -> MerchantAccount {
    register_merchant(5, blank_info(), 0)
}

fn unverified_merchant() -> MerchantAccount {
    let mut merchant = verified_merchant();
    merchant.verified = false;
    merchant
}

fn fresh_loan() -> MerchantLoanAccount {
    MerchantLoanAccount {
        merchant: 0,
        principal: 0,
        issue_date: 0,
        last_repayment_date: 0,
        status: LoanStatus::Active,
    }
}

fn liquid_pool() -> PoolState {
    PoolState {
        authority: 9,
        total_deposited: 10_000,
        total_borrowed: 0,
        base_rate: 200,
        utilization_slope: 1_000,
        protocol_fee_percent: 10,
    }
}

// Fully utilized at a huge base rate: borrow APR floors to a per-second rate
// of exactly 1, so loan accrual is principal * elapsed-seconds.
fn unit_rate_pool() -> PoolState {
    PoolState {
        authority: 9,
        total_deposited: 500,
        total_borrowed: 500,
        base_rate: 400_000_000_000,
        utilization_slope: 0,
        protocol_fee_percent: 0,
    }
}

#[test]
fn trust_score_is_binary() {
    assert_eq!(calculate_trust_score(&verified_merchant()), 30);
    assert_eq!(calculate_trust_score(&unverified_merchant()), 0);
}

#[test]
fn borrow_limit_exact_values() {
    // 1000 * (30 * 10) / 100 = 3000.
    assert_eq!(calculate_borrow_limit(30, 1_000), 3_000);
    assert_eq!(calculate_borrow_limit(0, 1_000), 0);
}

#[test]
fn borrow_limit_saturates() {
    assert_eq!(calculate_borrow_limit(30, u64::MAX), u64::MAX / 100);
}

#[test]
fn outstanding_zero_when_not_active() {
    let mut loan = fresh_loan();
    loan.principal = 1_000;
    loan.status = LoanStatus::Repaid;
    assert_eq!(get_outstanding_loan_amount(&loan, 1_000_000), 0);
}

#[test]
fn outstanding_adds_fixed_rate_interest() {
    let loan = MerchantLoanAccount {
        merchant: 5,
        principal: 365_000,
        issue_date: 0,
        last_repayment_date: 0,
        status: LoanStatus::Active,
    };
    // 73 whole days at 5% per 365-day year: 365000 * 5 * 73 / 36500 = 3650.
    assert_eq!(get_outstanding_loan_amount(&loan, 73 * 86_400), 368_650);
}

#[test]
fn outstanding_truncates_partial_days() {
    let loan = MerchantLoanAccount {
        merchant: 5,
        principal: 365_000,
        issue_date: 0,
        last_repayment_date: 0,
        status: LoanStatus::Active,
    };
    // One second short of a day counts as zero days.
    assert_eq!(get_outstanding_loan_amount(&loan, 86_399), 365_000);
}

#[test]
fn outstanding_of_missing_record_is_zero() {
    assert_eq!(get_outstanding_loan_amount_option(&None, 1_000), 0);
    let loan = fresh_loan();
    assert_eq!(get_outstanding_loan_amount_option(&Some(loan), 1_000), 0);
}

#[test]
fn borrow_of_zero_rejected() {
    let mut loan = fresh_loan();
    let mut pool = liquid_pool();
    assert_eq!(
        borrow(&verified_merchant(), &mut loan, &mut pool, 5, 9, 0, 50),
        Err(ErrorCode::InvalidAmount)
    );
    assert_eq!(pool, liquid_pool());
}

#[test]
fn borrow_by_unverified_merchant_rejected() {
    let mut loan = fresh_loan();
    let before = loan;
    let mut pool = liquid_pool();
    assert_eq!(
        borrow(&unverified_merchant(), &mut loan, &mut pool, 5, 9, 1_000, 50),
        Err(ErrorCode::MerchantNotVerified)
    );
    assert_eq!(pool.total_borrowed, 0);
    assert_eq!(pool, liquid_pool());
    assert_eq!(loan, before);
}

#[test]
fn borrow_past_limit_rejected() {
    // Outstanding 5000 plus the requested 1000 exceeds the 3000 limit.
    let mut loan = MerchantLoanAccount {
        merchant: 5,
        principal: 5_000,
        issue_date: 50,
        last_repayment_date: 50,
        status: LoanStatus::Active,
    };
    let mut pool = liquid_pool();
    assert_eq!(
        borrow(&verified_merchant(), &mut loan, &mut pool, 5, 9, 1_000, 50),
        Err(ErrorCode::ExceedsBorrowLimit)
    );
}

#[test]
fn borrow_beyond_pool_deposits_rejected() {
    let mut loan = fresh_loan();
    let mut pool = liquid_pool();
    pool.total_deposited = 500;
    assert_eq!(
        borrow(&verified_merchant(), &mut loan, &mut pool, 5, 9, 1_000, 50),
        Err(ErrorCode::InsufficientLiquidity)
    );
}

#[test]
fn borrow_draws_and_redates_loan() {
    let mut loan = fresh_loan();
    let mut pool = liquid_pool();
    let event = borrow(&verified_merchant(), &mut loan, &mut pool, 5, 9, 1_000, 50).unwrap();
    assert_eq!(
        event,
        BorrowEvent {
            merchant: 5,
            token_mint: 9,
            amount: 1_000,
            borrow_limit: 3_000,
            current_outstanding: 1_000,
            timestamp: 50,
        }
    );
    assert_eq!(
        loan,
        MerchantLoanAccount {
            merchant: 5,
            principal: 1_000,
            issue_date: 50,
            last_repayment_date: 50,
            status: LoanStatus::Active,
        }
    );
    assert_eq!(pool.total_borrowed, 1_000);
    assert_eq!(pool.total_deposited, 10_000);
}

#[test]
fn repay_requires_loan_owner() {
    let mut loan = fresh_loan();
    loan.merchant = 5;
    loan.principal = 100;
    let before = loan;
    let mut pool = liquid_pool();
    assert_eq!(
        repay_loan(&mut loan, &mut pool, 6, 9, 100, 50),
        Err(ErrorCode::UnauthorizedAccess)
    );
    assert_eq!(loan, before);
}

#[test]
fn repay_of_zero_rejected() {
    let mut loan = fresh_loan();
    loan.merchant = 5;
    let mut pool = liquid_pool();
    assert_eq!(repay_loan(&mut loan, &mut pool, 5, 9, 0, 50), Err(ErrorCode::InvalidAmount));
}

#[test]
fn repay_of_settled_loan_rejected() {
    let mut loan = fresh_loan();
    loan.merchant = 5;
    loan.status = LoanStatus::Repaid;
    let mut pool = liquid_pool();
    assert_eq!(repay_loan(&mut loan, &mut pool, 5, 9, 100, 50), Err(ErrorCode::LoanNotActive));
}

#[test]
fn repay_interest_only_leaves_principal() {
    // Principal 500 accrues 5000 of interest over 10 seconds at unit rate; a
    // payment of 3000 settles interest only and re-dates the loan.
    let mut loan = MerchantLoanAccount {
        merchant: 5,
        principal: 500,
        issue_date: 0,
        last_repayment_date: 0,
        status: LoanStatus::Active,
    };
    let mut pool = unit_rate_pool();
    let event = repay_loan(&mut loan, &mut pool, 5, 9, 3_000, 10).unwrap();
    assert_eq!(
        event,
        RepaymentEvent {
            merchant: 5,
            token_mint: 9,
            amount: 3_000,
            to_interest: 3_000,
            to_principal: 0,
            remaining_principal: 500,
            timestamp: 10,
        }
    );
    assert_eq!(loan.principal, 500);
    assert_eq!(loan.status, LoanStatus::Active);
    assert_eq!(loan.last_repayment_date, 10);
    assert_eq!(pool.total_borrowed, 500);
}

#[test]
fn overpayment_clears_loan_but_credit_is_capped() {
    // Principal 500 plus accrued 5000 makes 5500 outstanding.  Paying 6000 -
    // 500 more than owed - clears the loan, while the ledger credits only
    // 5500; the host still transfers the full nominal 6000.
    let mut loan = MerchantLoanAccount {
        merchant: 5,
        principal: 500,
        issue_date: 0,
        last_repayment_date: 0,
        status: LoanStatus::Active,
    };
    let mut pool = unit_rate_pool();
    let paid = 500 + 5_000 + 500;
    let event = repay_loan(&mut loan, &mut pool, 5, 9, paid, 10).unwrap();
    assert_eq!(
        event,
        RepaymentEvent {
            merchant: 5,
            token_mint: 9,
            amount: 5_500,
            to_interest: 5_000,
            to_principal: 500,
            remaining_principal: 0,
            timestamp: 10,
        }
    );
    assert!(event.amount < paid);
    assert_eq!(loan.principal, 0);
    assert_eq!(loan.status, LoanStatus::Repaid);
    assert_eq!(pool.total_borrowed, 0);
}

#[test]
fn repay_splits_interest_then_principal() {
    let mut loan = MerchantLoanAccount {
        merchant: 5,
        principal: 500,
        issue_date: 0,
        last_repayment_date: 0,
        status: LoanStatus::Active,
    };
    let mut pool = unit_rate_pool();
    let event = repay_loan(&mut loan, &mut pool, 5, 9, 5_200, 10).unwrap();
    assert_eq!(event.to_interest, 5_000);
    assert_eq!(event.to_principal, 200);
    assert_eq!(loan.principal, 300);
    assert_eq!(loan.status, LoanStatus::Active);
    assert_eq!(pool.total_borrowed, 300);
}

#[test]
fn repay_on_empty_active_loan_stays_active() {
    // An active loan with zero principal owes nothing: the effective
    // repayment is zero and the status does not move to Repaid.
    let mut loan = fresh_loan();
    loan.merchant = 5;
    let mut pool = liquid_pool();
    let event = repay_loan(&mut loan, &mut pool, 5, 9, 100, 50).unwrap();
    assert_eq!(event.amount, 0);
    assert_eq!(loan.status, LoanStatus::Active);
    assert_eq!(loan.principal, 0);
}
