//! Loan underwriting and the loan ledger.  Underwriting gates a new draw on a
//! trust-scored limit and a fixed-rate outstanding-balance estimate; actual
//! loan accrual uses the dynamic borrow APR, and repayments flow through an
//! interest-then-principal waterfall.  The two rates are deliberately
//! different sources and must stay that way.

use crate::accrual::{calculate_loan_interest, spec_accrued_interest};
use crate::errors::ErrorCode;
use crate::events::{BorrowEvent, RepaymentEvent};
use crate::payment::min64;
use crate::pool::PoolState;
use crate::registry::MerchantAccount;
use vstd::prelude::*;

verus! {

/// Seconds in a day.
pub const SECONDS_PER_DAY: u64 = 86_400;

/// Lifecycle of a loan.
#[derive(Clone, Copy, Debug, PartialEq, Eq, Structural)]
pub enum LoanStatus {
    /// Principal is outstanding.
    Active,
    /// Principal has been repaid in full.
    Repaid,
    /// Abandoned by an external process; terminal.
    WrittenOff,
}

/// One merchant's loan position in one asset pool.
#[derive(Clone, Copy, Debug, PartialEq, Eq, Structural)]
pub struct MerchantLoanAccount {
    /// Identity of the borrowing merchant.
    pub merchant: u64,
    /// Outstanding principal.
    pub principal: u64,
    /// When the loan was (last) drawn.
    pub issue_date: i64,
    /// When the loan was last drawn or repaid; accrual runs from here.
    pub last_repayment_date: i64,
    /// Lifecycle state.
    pub status: LoanStatus,
}

impl MerchantLoanAccount {
    /// A record is well formed when its timestamps are not before the epoch.
    pub open spec fn wf(self) -> bool {
        self.issue_date >= 0 && self.last_repayment_date >= 0
    }
}

/// Trust score of a merchant, from 0 to 100: a verified merchant scores 30,
/// an unverified one 0.  Deliberately binary for now; a fuller model would
/// weigh revenue and repayment history.
pub open spec fn spec_trust_score(merchant_account: MerchantAccount) -> u8 {
    if merchant_account.verified {
        30u8
    } else {
        0u8
    }
}

/// Borrow limit for a request: `amount * (trust_score * 10) / 100`, the
/// product saturating at `u64::MAX`.  The limit is defined in terms of the
/// requested amount itself, a known weakness preserved from the underwriting
/// design.
pub open spec fn spec_borrow_limit(trust_score: u8, amount: u64) -> u64 {
    let raw = amount as int * (trust_score as int * 10);
    let capped: int = if raw > u64::MAX {
        u64::MAX as int
    } else {
        raw
    };
    (capped / 100) as u64
}

/// Outstanding balance of a loan as underwriting estimates it: zero unless
/// the loan is active, else the principal plus simple interest at a fixed 5%
/// per year over whole elapsed days, every product saturating at `u64::MAX`.
/// This fixed rate serves only limit checks and is intentionally not the
/// dynamic borrow APR used for real accrual.
pub open spec fn spec_outstanding_loan_amount(loan: MerchantLoanAccount, now: i64) -> u64
    recommends
        loan.status == LoanStatus::Active ==> loan.last_repayment_date <= now,
{
    if loan.status != LoanStatus::Active {
        0u64
    } else {
        let days = (now - loan.last_repayment_date) / (SECONDS_PER_DAY as int);
        let raw = loan.principal as int * 5 * days;
        let capped: int = if raw > u64::MAX {
            u64::MAX as int
        } else {
            raw
        };
        let interest = (capped / 36_500) as u64;
        loan.principal.saturating_add(interest)
    }
}

/// Interest a loan has accrued between its last repayment and `now`, at the
/// borrow APR of the given pool snapshot.
pub open spec fn spec_loan_accrual(loan: MerchantLoanAccount, pool: PoolState, now: i64) -> u64 {
    spec_accrued_interest(loan.principal, pool.spec_borrow_apr(), loan.last_repayment_date, now)
}

/// The part of a repayment the ledger credits: the paid amount, capped at
/// principal plus accrued interest.  Any excess is not credited (though the
/// nominal transfer is never capped).
pub open spec fn spec_effective_repayment(principal: u64, accrued: u64, amount: u64) -> u64 {
    min64(amount, principal.saturating_add(accrued))
}

/// The slice of the effective repayment that settles accrued interest.
pub open spec fn spec_interest_portion(principal: u64, accrued: u64, amount: u64) -> u64 {
    min64(spec_effective_repayment(principal, accrued, amount), accrued)
}

/// The slice of the effective repayment that retires principal.
pub open spec fn spec_principal_portion(principal: u64, accrued: u64, amount: u64) -> u64 {
    spec_effective_repayment(principal, accrued, amount).saturating_sub(accrued)
}

/// Principal left on the loan after a repayment.
pub open spec fn spec_principal_after(principal: u64, accrued: u64, amount: u64) -> u64 {
    (principal - spec_principal_portion(principal, accrued, amount)) as u64
}

/// Loan status after a repayment: `Repaid` exactly when some principal was
/// retired and none is left, otherwise the loan stays `Active`.
pub open spec fn spec_status_after(principal: u64, accrued: u64, amount: u64) -> LoanStatus {
    if spec_effective_repayment(principal, accrued, amount) > accrued && spec_principal_after(
        principal,
        accrued,
        amount,
    ) == 0 {
        LoanStatus::Repaid
    } else {
        LoanStatus::Active
    }
}

/// Trust score of a merchant: 30 when verified, 0 otherwise.
pub fn calculate_trust_score(merchant_account: &MerchantAccount) -> (r: u8)
    ensures
        r == spec_trust_score(*merchant_account),
{
    if merchant_account.verified {
        30
    } else {
        0
    }
}

/// Borrow limit for a trust score and a requested amount.
pub fn calculate_borrow_limit(trust_score: u8, amount: u64) -> (r: u64)
    ensures
        r == spec_borrow_limit(trust_score, amount),
{
    let trust_percent: u64 = (trust_score as u64) * 10;
    let scaled: u64 = match amount.checked_mul(trust_percent) {
        Some(product) => product,
        None => u64::MAX,
    };
    scaled / 100
}

/// Outstanding balance of a loan for underwriting, at `now`.
pub fn get_outstanding_loan_amount(merchant_loan: &MerchantLoanAccount, now: i64) -> (r: u64)
    requires
        merchant_loan.wf(),
        merchant_loan.status == LoanStatus::Active ==> merchant_loan.last_repayment_date <= now,
    ensures
        r == spec_outstanding_loan_amount(*merchant_loan, now),
{
    if merchant_loan.status != LoanStatus::Active {
        return 0;
    }

    let days_elapsed: u64 = ((now - merchant_loan.last_repayment_date) as u64) / SECONDS_PER_DAY;
    let principal = merchant_loan.principal;

    let scaled: u64 = match principal.checked_mul(5) {
        Some(product) => product,
        None => u64::MAX,
    };
    let raw: u64 = match scaled.checked_mul(days_elapsed) {
        Some(product) => product,
        None => u64::MAX,
    };
    proof {
        let p = principal as int;
        let d = days_elapsed as int;
        if p * 5 > u64::MAX {
            if d == 0 {
                assert(p * 5 * d == 0) by (nonlinear_arith)
                    requires
                        d == 0,
                ;
            } else {
                assert(p * 5 > u64::MAX && d >= 1 ==> p * 5 * d >= p * 5) by (nonlinear_arith);
                assert(d >= 2 ==> u64::MAX as int * d > u64::MAX) by (nonlinear_arith);
            }
        }
    }
    let interest = raw / 36_500;

    principal.saturating_add(interest)
}

/// Outstanding balance when the merchant may not have a loan record at all.
pub fn get_outstanding_loan_amount_option(
    merchant_loan: &Option<MerchantLoanAccount>,
    now: i64,
) -> (r: u64)
    requires
        (*merchant_loan) matches Some(loan) ==> loan.wf() && (loan.status == LoanStatus::Active
            ==> loan.last_repayment_date <= now),
    ensures
        r == match *merchant_loan {
            Some(loan) => spec_outstanding_loan_amount(loan, now),
            None => 0u64,
        },
{
    match merchant_loan {
        Some(loan) => get_outstanding_loan_amount(loan, now),
        None => 0,
    }
}

/// Draws `amount` from the pool for a merchant.  The merchant must be
/// verified; the outstanding balance plus the draw must stay within the
/// trust-scored limit; and the pool must hold at least `amount` in deposits
/// (a raw liquidity check, not netted against what is already lent).  On
/// success the loan is re-dated to `now`, made active, and grown by `amount`,
/// and the pool's borrowed total grows by `amount`; the host environment then
/// moves the funds vault-to-merchant.  Rejections change nothing.
pub fn borrow(
    merchant_account: &MerchantAccount,
    merchant_loan: &mut MerchantLoanAccount,
    pool_state: &mut PoolState,
    merchant_wallet: u64,
    token_mint: u64,
    amount: u64,
    now: i64,
) -> (r: Result<BorrowEvent, ErrorCode>)
    requires
        old(merchant_loan).wf(),
        old(pool_state).wf(),
        now >= 0,
        old(merchant_loan).status == LoanStatus::Active ==> old(
            merchant_loan,
        ).last_repayment_date <= now,
    ensures
        final(merchant_loan).wf(),
        final(pool_state).wf(),
        r is Err ==> *final(merchant_loan) == *old(merchant_loan)
            && *final(pool_state) == *old(pool_state),
        amount == 0 ==> r == Err::<BorrowEvent, ErrorCode>(ErrorCode::InvalidAmount),
        amount > 0 && !merchant_account.verified ==> r == Err::<BorrowEvent, ErrorCode>(
            ErrorCode::MerchantNotVerified,
        ),
        ({
            let limit = spec_borrow_limit(spec_trust_score(*merchant_account), amount);
            let outstanding_after = spec_outstanding_loan_amount(
                *old(merchant_loan),
                now,
            ).saturating_add(amount);
            &&& (amount > 0 && merchant_account.verified && outstanding_after > limit ==> r
                == Err::<BorrowEvent, ErrorCode>(ErrorCode::ExceedsBorrowLimit))
            &&& (amount > 0 && merchant_account.verified && outstanding_after <= limit && old(
                pool_state,
            ).total_deposited < amount ==> r == Err::<BorrowEvent, ErrorCode>(
                ErrorCode::InsufficientLiquidity,
            ))
            &&& (r is Ok <==> amount > 0 && merchant_account.verified && outstanding_after
                <= limit && old(pool_state).total_deposited >= amount)
            &&& (r is Ok ==> {
                &&& *final(merchant_loan) == (MerchantLoanAccount {
                    merchant: merchant_wallet,
                    principal: old(merchant_loan).principal.saturating_add(amount),
                    issue_date: now,
                    last_repayment_date: now,
                    status: LoanStatus::Active,
                })
                &&& *final(pool_state) == (PoolState {
                    total_borrowed: old(pool_state).total_borrowed.saturating_add(amount),
                    ..*old(pool_state)
                })
                &&& r == Ok::<BorrowEvent, ErrorCode>(
                    (BorrowEvent {
                        merchant: merchant_wallet,
                        token_mint,
                        amount,
                        borrow_limit: limit,
                        current_outstanding: outstanding_after,
                        timestamp: now,
                    }),
                )
            })
        }),
{
    if amount == 0 {
        return Err(ErrorCode::InvalidAmount);
    }
    if !merchant_account.verified {
        return Err(ErrorCode::MerchantNotVerified);
    }

    let trust_score = calculate_trust_score(merchant_account);
    let borrow_limit = calculate_borrow_limit(trust_score, amount);

    let current_loans = get_outstanding_loan_amount(merchant_loan, now);
    let total_borrowed_after = current_loans.saturating_add(amount);
    if total_borrowed_after > borrow_limit {
        return Err(ErrorCode::ExceedsBorrowLimit);
    }

    if pool_state.total_deposited < amount {
        return Err(ErrorCode::InsufficientLiquidity);
    }

    merchant_loan.merchant = merchant_wallet;
    merchant_loan.principal = merchant_loan.principal.saturating_add(amount);
    merchant_loan.issue_date = now;
    merchant_loan.last_repayment_date = now;
    merchant_loan.status = LoanStatus::Active;

    pool_state.total_borrowed = pool_state.total_borrowed.saturating_add(amount);

    Ok(
        BorrowEvent {
            merchant: merchant_wallet,
            token_mint,
            amount,
            borrow_limit,
            current_outstanding: total_borrowed_after,
            timestamp: now,
        },
    )
}

/// Applies a repayment to an active loan: interest accrued at the dynamic
/// borrow APR is settled first, then principal, and the ledger credit is
/// capped at principal plus accrued interest.  The host environment transfers
/// the full nominal `amount` merchant-to-vault before this ledger update,
/// even when the payer overpays; only the bookkeeping is capped.  A loan
/// whose principal reaches zero becomes `Repaid`.  Rejections change nothing.
pub fn repay_loan(
    merchant_loan: &mut MerchantLoanAccount,
    pool_state: &mut PoolState,
    merchant_wallet: u64,
    token_mint: u64,
    amount: u64,
    now: i64,
) -> (r: Result<RepaymentEvent, ErrorCode>)
    requires
        old(merchant_loan).wf(),
        old(pool_state).wf(),
        now >= 0,
    ensures
        final(merchant_loan).wf(),
        final(pool_state).wf(),
        r is Err ==> *final(merchant_loan) == *old(merchant_loan)
            && *final(pool_state) == *old(pool_state),
        old(merchant_loan).merchant != merchant_wallet ==> r == Err::<RepaymentEvent, ErrorCode>(
            ErrorCode::UnauthorizedAccess,
        ),
        old(merchant_loan).merchant == merchant_wallet && amount == 0 ==> r == Err::<
            RepaymentEvent,
            ErrorCode,
        >(ErrorCode::InvalidAmount),
        old(merchant_loan).merchant == merchant_wallet && amount > 0 && old(merchant_loan).status
            != LoanStatus::Active ==> r == Err::<RepaymentEvent, ErrorCode>(
            ErrorCode::LoanNotActive,
        ),
        r is Ok <==> old(merchant_loan).merchant == merchant_wallet && amount > 0 && old(
            merchant_loan,
        ).status == LoanStatus::Active,
        r is Ok ==> ({
            let principal = old(merchant_loan).principal;
            let accrued = spec_loan_accrual(*old(merchant_loan), *old(pool_state), now);
            &&& *final(merchant_loan) == (MerchantLoanAccount {
                principal: spec_principal_after(principal, accrued, amount),
                last_repayment_date: now,
                status: spec_status_after(principal, accrued, amount),
                ..*old(merchant_loan)
            })
            &&& *final(pool_state) == (PoolState {
                total_borrowed: old(pool_state).total_borrowed.saturating_sub(
                    spec_principal_portion(principal, accrued, amount),
                ),
                ..*old(pool_state)
            })
            &&& r == Ok::<RepaymentEvent, ErrorCode>(
                (RepaymentEvent {
                    merchant: merchant_wallet,
                    token_mint,
                    amount: spec_effective_repayment(principal, accrued, amount),
                    to_interest: spec_interest_portion(principal, accrued, amount),
                    to_principal: spec_principal_portion(principal, accrued, amount),
                    remaining_principal: spec_principal_after(principal, accrued, amount),
                    timestamp: now,
                }),
            )
        }),
{
    if merchant_loan.merchant != merchant_wallet {
        return Err(ErrorCode::UnauthorizedAccess);
    }
    if amount == 0 {
        return Err(ErrorCode::InvalidAmount);
    }
    if merchant_loan.status != LoanStatus::Active {
        return Err(ErrorCode::LoanNotActive);
    }

    let accrued_interest = calculate_loan_interest(
        merchant_loan.principal,
        merchant_loan.last_repayment_date,
        now,
        pool_state.base_rate,
        pool_state.utilization_slope,
        pool_state.total_deposited,
        pool_state.total_borrowed,
    );

    let total_outstanding = merchant_loan.principal.saturating_add(accrued_interest);
    let repayment_amount = if amount <= total_outstanding {
        amount
    } else {
        total_outstanding
    };

    if repayment_amount <= accrued_interest {
        merchant_loan.last_repayment_date = now;
    } else {
        let principal_payment = repayment_amount.saturating_sub(accrued_interest);
        merchant_loan.principal = merchant_loan.principal.saturating_sub(principal_payment);
        merchant_loan.last_repayment_date = now;

        pool_state.total_borrowed = pool_state.total_borrowed.saturating_sub(principal_payment);

        if merchant_loan.principal == 0 {
            merchant_loan.status = LoanStatus::Repaid;
        }
    }

    Ok(
        RepaymentEvent {
            merchant: merchant_wallet,
            token_mint,
            amount: repayment_amount,
            to_interest: if repayment_amount <= accrued_interest {
                repayment_amount
            } else {
                accrued_interest
            },
            to_principal: repayment_amount.saturating_sub(accrued_interest),
            remaining_principal: merchant_loan.principal,
            timestamp: now,
        },
    )
}

/// The repayment waterfall partitions the effective repayment: on a loan
/// that still carries principal, the interest and principal portions sum
/// exactly to the effective repayment, the principal portion never exceeds
/// the principal, the remaining principal is the old principal less the
/// principal portion, and the loan ends `Repaid` exactly when no principal
/// remains.
pub proof fn lemma_repayment_waterfall(principal: u64, accrued: u64, amount: u64)
    requires
        principal > 0,
    ensures
        spec_interest_portion(principal, accrued, amount) + spec_principal_portion(
            principal,
            accrued,
            amount,
        ) == spec_effective_repayment(principal, accrued, amount),
        spec_principal_portion(principal, accrued, amount) <= principal,
        spec_principal_after(principal, accrued, amount) == principal - spec_principal_portion(
            principal,
            accrued,
            amount,
        ),
        spec_status_after(principal, accrued, amount) == LoanStatus::Repaid <==>
            spec_principal_after(principal, accrued, amount) == 0,
{
}

} // verus!
