//! The payment waterfall.  A payment to a merchant is funded in strict
//! priority order: the payer's accrued interest first, then the payer's
//! deposited principal, and only then the payer's outside wallet.  A payer
//! without a deposit record pays everything from the wallet.

use crate::accrual::calculate_interest;
use crate::deposit::{spec_deposit_accrual, UserDepositAccount};
use crate::errors::ErrorCode;
use crate::events::PaymentEvent;
use crate::pool::PoolState;
use vstd::prelude::*;

verus! {

/// The smaller of two balances.
pub open spec fn min64(a: u64, b: u64) -> u64 {
    if a <= b {
        a
    } else {
        b
    }
}

/// The three-way split of a payment across its sources, given the interest
/// and principal the payer has available: interest covers as much of the
/// amount as it can, principal covers as much of the rest as it can, and the
/// wallet funds whatever is left.
pub open spec fn spec_payment_split(
    interest_available: u64,
    deposit_available: u64,
    amount: u64,
) -> (u64, u64, u64) {
    let from_interest = min64(interest_available, amount);
    let remaining = (amount - from_interest) as u64;
    let from_deposit = min64(deposit_available, remaining);
    let from_wallet = (amount - from_interest - from_deposit) as u64;
    (from_interest, from_deposit, from_wallet)
}

/// Interest available to spend once the pending accrual up to `now` has been
/// folded in.
pub open spec fn spec_available_interest(
    deposit: UserDepositAccount,
    pool: PoolState,
    now: i64,
) -> u64 {
    deposit.interest_earned.saturating_add(spec_deposit_accrual(deposit, pool, now))
}

/// The split a payment takes against an optional deposit record: a payer
/// without a record funds the whole amount from the wallet.
pub open spec fn spec_pay_split(
    deposit: Option<UserDepositAccount>,
    pool: PoolState,
    amount: u64,
    now: i64,
) -> (u64, u64, u64) {
    match deposit {
        Some(d) => spec_payment_split(
            spec_available_interest(d, pool, now),
            d.deposited_amount,
            amount,
        ),
        None => (0u64, 0u64, amount),
    }
}

/// The payer's deposit record after a payment: accrued up to `now`, with the
/// interest and principal portions of the split consumed.
pub open spec fn spec_pay_deposit_after(
    deposit: UserDepositAccount,
    pool: PoolState,
    amount: u64,
    now: i64,
) -> UserDepositAccount {
    let split = spec_pay_split(Some(deposit), pool, amount, now);
    UserDepositAccount {
        interest_earned: (spec_available_interest(deposit, pool, now) - split.0) as u64,
        deposited_amount: (deposit.deposited_amount - split.1) as u64,
        last_interest_calculation: now,
        ..deposit
    }
}

/// The pool aggregate after a payment: the principal leg of the split leaves
/// the pool's deposit total.
pub open spec fn spec_pay_pool_after(
    deposit: Option<UserDepositAccount>,
    pool: PoolState,
    amount: u64,
    now: i64,
) -> PoolState {
    let split = spec_pay_split(deposit, pool, amount, now);
    PoolState { total_deposited: pool.total_deposited.saturating_sub(split.1), ..pool }
}

/// The event a payment reports: the full amount and its three-way split.
pub open spec fn spec_pay_event(
    deposit: Option<UserDepositAccount>,
    pool: PoolState,
    user: u64,
    merchant: u64,
    token_mint: u64,
    amount: u64,
    now: i64,
) -> PaymentEvent {
    let split = spec_pay_split(deposit, pool, amount, now);
    PaymentEvent {
        user,
        merchant,
        token_mint,
        total_amount: amount,
        from_interest: split.0,
        from_deposit: split.1,
        from_wallet: split.2,
        timestamp: now,
    }
}

/// Routes a payment of `amount` from `user` to `merchant`.  If the payer has
/// a deposit record it is accrued first and then drained in priority order —
/// interest, then principal — and the pool total drops by the principal leg;
/// the rest of the amount is owed from the payer's wallet.  The host
/// environment must move the wallet leg payer-to-merchant and the pooled legs
/// vault-to-merchant, in full, for the operation to commit.  Rejects a zero
/// amount and changes nothing when it rejects.
pub fn pay_via_pool(
    user_deposit: &mut Option<UserDepositAccount>,
    pool_state: &mut PoolState,
    user: u64,
    merchant: u64,
    token_mint: u64,
    amount: u64,
    now: i64,
) -> (r: Result<PaymentEvent, ErrorCode>)
    requires
        (*old(user_deposit)) matches Some(d) ==> d.wf(),
        old(pool_state).wf(),
        now >= 0,
    ensures
        (*final(user_deposit)) matches Some(d) ==> d.wf(),
        final(pool_state).wf(),
        r is Err <==> amount == 0,
        r is Err ==> r == Err::<PaymentEvent, ErrorCode>(ErrorCode::InvalidAmount)
            && *final(user_deposit) == *old(user_deposit)
            && *final(pool_state) == *old(pool_state),
        r is Ok ==> {
            &&& r == Ok::<PaymentEvent, ErrorCode>(
                spec_pay_event(
                    *old(user_deposit),
                    *old(pool_state),
                    user,
                    merchant,
                    token_mint,
                    amount,
                    now,
                ),
            )
            &&& *final(pool_state) == spec_pay_pool_after(
                *old(user_deposit),
                *old(pool_state),
                amount,
                now,
            )
            &&& (*old(user_deposit) matches Some(d) ==> *final(user_deposit) == Some(
                spec_pay_deposit_after(d, *old(pool_state), amount, now),
            ))
            &&& ((*old(user_deposit)) is None ==> (*final(user_deposit)) is None)
        },
{
    if amount == 0 {
        return Err(ErrorCode::InvalidAmount);
    }

    let mut from_interest: u64 = 0;
    let mut from_deposit: u64 = 0;

    match user_deposit {
        Some(d) => {
            let earned_interest = calculate_interest(
                d.deposited_amount,
                d.last_interest_calculation,
                now,
                pool_state.base_rate,
                pool_state.utilization_slope,
                pool_state.protocol_fee_percent,
                pool_state.total_deposited,
                pool_state.total_borrowed,
            );
            d.interest_earned = d.interest_earned.saturating_add(earned_interest);
            d.last_interest_calculation = now;

            if d.interest_earned > 0 {
                from_interest = if d.interest_earned <= amount {
                    d.interest_earned
                } else {
                    amount
                };
                d.interest_earned = d.interest_earned.saturating_sub(from_interest);
            }

            let remaining = amount.saturating_sub(from_interest);
            if remaining > 0 && d.deposited_amount > 0 {
                from_deposit = if d.deposited_amount <= remaining {
                    d.deposited_amount
                } else {
                    remaining
                };
                d.deposited_amount = d.deposited_amount.saturating_sub(from_deposit);

                pool_state.total_deposited = pool_state.total_deposited.saturating_sub(
                    from_deposit,
                );
            }
        },
        None => {},
    }

    let from_wallet = amount.saturating_sub(from_interest + from_deposit);

    Ok(
        PaymentEvent {
            user,
            merchant,
            token_mint,
            total_amount: amount,
            from_interest,
            from_deposit,
            from_wallet,
            timestamp: now,
        },
    )
}

/// The payment waterfall is a partition: whenever the payer's wallet can
/// cover the whole amount on its own, the three legs sum exactly to the
/// amount, and each leg stays within the balance of its source.
pub proof fn lemma_payment_waterfall(
    interest_available: u64,
    deposit_available: u64,
    wallet_balance: u64,
    amount: u64,
)
    requires
        wallet_balance >= amount,
    ensures
        ({
            let split = spec_payment_split(interest_available, deposit_available, amount);
            &&& split.0 + split.1 + split.2 == amount
            &&& split.0 <= interest_available
            &&& split.1 <= deposit_available
            &&& split.2 <= wallet_balance
        }),
{
}

} // verus!
