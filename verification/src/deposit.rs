//! Depositor records and the deposit / withdraw transitions.  Both accrue
//! interest at the current rate before touching the balance, and both update
//! the pool aggregate with saturating arithmetic.

use crate::accrual::{calculate_interest, spec_accrued_interest};
use crate::errors::ErrorCode;
use crate::events::{DepositEvent, WithdrawEvent};
use crate::pool::PoolState;
use vstd::prelude::*;

verus! {

/// One depositor's position in one asset pool.  Created on first deposit and
/// never deleted, even at zero balance.
#[derive(Clone, Copy, Debug, PartialEq, Eq, Structural)]
pub struct UserDepositAccount {
    /// Identity of the depositor who owns this record.
    pub user: u64,
    /// Identity of the asset this record holds.
    pub token_mint: u64,
    /// Principal currently deposited.
    pub deposited_amount: u64,
    /// Interest accrued and not yet withdrawn or spent.
    pub interest_earned: u64,
    /// Timestamp up to which interest has been accrued.
    pub last_interest_calculation: i64,
    /// Timestamp of the first deposit.
    pub deposit_date: i64,
}

impl UserDepositAccount {
    /// A record is well formed when its timestamps are not before the epoch.
    pub open spec fn wf(self) -> bool {
        self.last_interest_calculation >= 0 && self.deposit_date >= 0
    }
}

/// Interest the record has earned, but not yet been credited, between its
/// last accrual and `now`, at the deposit APR of the given pool snapshot.
pub open spec fn spec_deposit_accrual(
    deposit: UserDepositAccount,
    pool: PoolState,
    now: i64,
) -> u64 {
    spec_accrued_interest(
        deposit.deposited_amount,
        pool.spec_deposit_apr(),
        deposit.last_interest_calculation,
        now,
    )
}

/// Credits `amount` to the depositor and to the pool total.  On an existing
/// position the interest earned so far is accrued first; on a first deposit
/// the record is claimed for `user` and `token_mint`.  Rejects a zero amount
/// and changes nothing when it rejects.
pub fn deposit(
    user_deposit: &mut UserDepositAccount,
    pool_state: &mut PoolState,
    user: u64,
    token_mint: u64,
    amount: u64,
    now: i64,
) -> (r: Result<DepositEvent, ErrorCode>)
    requires
        old(user_deposit).wf(),
        old(pool_state).wf(),
        now >= 0,
    ensures
        final(user_deposit).wf(),
        final(pool_state).wf(),
        r is Err <==> amount == 0,
        r is Err ==> r == Err::<DepositEvent, ErrorCode>(ErrorCode::InvalidAmount)
            && *final(user_deposit) == *old(user_deposit)
            && *final(pool_state) == *old(pool_state),
        r is Ok ==> ({
            let accrued = spec_deposit_accrual(*old(user_deposit), *old(pool_state), now);
            &&& final(user_deposit).deposited_amount
                == old(user_deposit).deposited_amount.saturating_add(amount)
            &&& final(user_deposit).last_interest_calculation == now
            &&& old(user_deposit).deposited_amount > 0 ==> {
                &&& final(user_deposit).interest_earned
                    == old(user_deposit).interest_earned.saturating_add(accrued)
                &&& final(user_deposit).user == old(user_deposit).user
                &&& final(user_deposit).token_mint == old(user_deposit).token_mint
                &&& final(user_deposit).deposit_date == old(user_deposit).deposit_date
            }
            &&& old(user_deposit).deposited_amount == 0 ==> {
                &&& final(user_deposit).interest_earned == old(user_deposit).interest_earned
                &&& final(user_deposit).user == user
                &&& final(user_deposit).token_mint == token_mint
                &&& final(user_deposit).deposit_date == now
            }
            &&& *final(pool_state) == (PoolState {
                total_deposited: old(pool_state).total_deposited.saturating_add(amount),
                ..*old(pool_state)
            })
            &&& r == Ok::<DepositEvent, ErrorCode>(
                (DepositEvent {
                    user: final(user_deposit).user,
                    token_mint: final(user_deposit).token_mint,
                    amount,
                    total_deposited: final(user_deposit).deposited_amount,
                    timestamp: now,
                }),
            )
        }),
        final(user_deposit).interest_earned >= old(user_deposit).interest_earned,
{
    if amount == 0 {
        return Err(ErrorCode::InvalidAmount);
    }

    if user_deposit.deposited_amount > 0 {
        let earned_interest = calculate_interest(
            user_deposit.deposited_amount,
            user_deposit.last_interest_calculation,
            now,
            pool_state.base_rate,
            pool_state.utilization_slope,
            pool_state.protocol_fee_percent,
            pool_state.total_deposited,
            pool_state.total_borrowed,
        );
        user_deposit.interest_earned = user_deposit.interest_earned.saturating_add(
            earned_interest,
        );
    } else {
        user_deposit.user = user;
        user_deposit.token_mint = token_mint;
        user_deposit.deposit_date = now;
    }

    user_deposit.deposited_amount = user_deposit.deposited_amount.saturating_add(amount);
    user_deposit.last_interest_calculation = now;

    pool_state.total_deposited = pool_state.total_deposited.saturating_add(amount);

    Ok(
        DepositEvent {
            user: user_deposit.user,
            token_mint: user_deposit.token_mint,
            amount,
            total_deposited: user_deposit.deposited_amount,
            timestamp: now,
        },
    )
}

/// Debits `amount` from the depositor and from the pool total, after accruing
/// the interest earned so far.  Rejects a caller who does not own the record,
/// a zero amount, and an amount above the deposited balance; it changes
/// nothing when it rejects.
pub fn withdraw(
    user_deposit: &mut UserDepositAccount,
    pool_state: &mut PoolState,
    user: u64,
    amount: u64,
    now: i64,
) -> (r: Result<WithdrawEvent, ErrorCode>)
    requires
        old(user_deposit).wf(),
        old(pool_state).wf(),
        now >= 0,
    ensures
        final(user_deposit).wf(),
        final(pool_state).wf(),
        old(user_deposit).user != user ==> r == Err::<WithdrawEvent, ErrorCode>(
            ErrorCode::UnauthorizedAccess,
        ),
        old(user_deposit).user == user && amount == 0 ==> r == Err::<WithdrawEvent, ErrorCode>(
            ErrorCode::InvalidAmount,
        ),
        old(user_deposit).user == user && amount > 0 && old(user_deposit).deposited_amount < amount
            ==> r == Err::<WithdrawEvent, ErrorCode>(ErrorCode::InsufficientFunds),
        r is Err ==> *final(user_deposit) == *old(user_deposit)
            && *final(pool_state) == *old(pool_state),
        r is Ok <==> old(user_deposit).user == user && amount > 0
            && old(user_deposit).deposited_amount >= amount,
        r is Ok ==> ({
            let accrued = spec_deposit_accrual(*old(user_deposit), *old(pool_state), now);
            &&& *final(user_deposit) == (UserDepositAccount {
                deposited_amount: (old(user_deposit).deposited_amount - amount) as u64,
                interest_earned: old(user_deposit).interest_earned.saturating_add(accrued),
                last_interest_calculation: now,
                ..*old(user_deposit)
            })
            &&& *final(pool_state) == (PoolState {
                total_deposited: old(pool_state).total_deposited.saturating_sub(amount),
                ..*old(pool_state)
            })
            &&& r == Ok::<WithdrawEvent, ErrorCode>(
                (WithdrawEvent {
                    user,
                    token_mint: old(user_deposit).token_mint,
                    amount,
                    remaining_deposit: final(user_deposit).deposited_amount,
                    timestamp: now,
                }),
            )
        }),
        final(user_deposit).interest_earned >= old(user_deposit).interest_earned,
{
    if user_deposit.user != user {
        return Err(ErrorCode::UnauthorizedAccess);
    }
    if amount == 0 {
        return Err(ErrorCode::InvalidAmount);
    }
    if user_deposit.deposited_amount < amount {
        return Err(ErrorCode::InsufficientFunds);
    }

    let earned_interest = calculate_interest(
        user_deposit.deposited_amount,
        user_deposit.last_interest_calculation,
        now,
        pool_state.base_rate,
        pool_state.utilization_slope,
        pool_state.protocol_fee_percent,
        pool_state.total_deposited,
        pool_state.total_borrowed,
    );

    user_deposit.interest_earned = user_deposit.interest_earned.saturating_add(earned_interest);
    user_deposit.last_interest_calculation = now;
    user_deposit.deposited_amount = user_deposit.deposited_amount - amount;

    pool_state.total_deposited = pool_state.total_deposited.saturating_sub(amount);

    Ok(
        WithdrawEvent {
            user,
            token_mint: user_deposit.token_mint,
            amount,
            remaining_deposit: user_deposit.deposited_amount,
            timestamp: now,
        },
    )
}

} // verus!
