//! Failure taxonomy of the lending pool.  Every operation checks its
//! preconditions before touching any balance, so each error identifies the
//! exact input condition it reports and implies that no state changed.

use vstd::prelude::*;

verus! {

/// Why a pool operation was rejected.
#[derive(Clone, Copy, Debug, PartialEq, Eq, Structural)]
pub enum ErrorCode {
    /// The caller does not own the record it tried to mutate.
    UnauthorizedAccess,
    /// The operation amount was zero.
    InvalidAmount,
    /// A withdrawal asked for more than the depositor's balance.
    InsufficientFunds,
    /// A loan asked for more than the pool holds in deposits.
    InsufficientLiquidity,
    /// The borrowing merchant has not been verified.
    MerchantNotVerified,
    /// The requested loan would push the merchant past its borrow limit.
    ExceedsBorrowLimit,
    /// A repayment was attempted on a loan that is not active.
    LoanNotActive,
    /// A pool was configured with a protocol fee above one hundred percent.
    InvalidFeePercentage,
}

} // verus!
