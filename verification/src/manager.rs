//! Subscriptions: purchase, redemption, and renewal of a merchant's
//! subscription program.  A renewal pays through the pool's payment
//! waterfall, so a subscriber's accrued interest and deposits are spent
//! before the wallet is touched.

use crate::deposit::UserDepositAccount;
use crate::events::PaymentEvent;
use crate::factory::SubscriptionProgram;
use crate::loans::SECONDS_PER_DAY;
use crate::payment::{
    pay_via_pool, spec_pay_deposit_after, spec_pay_event, spec_pay_pool_after,
};
use crate::pool::PoolState;
use vstd::prelude::*;

verus! {

/// Why a subscription operation was rejected.
#[derive(Clone, Copy, Debug, PartialEq, Eq, Structural)]
pub enum ErrorCode {
    /// The subscription program no longer accepts members.
    InactiveProgram,
    /// The payment does not match the subscription price.
    InvalidPaymentAmount,
    /// The subscription period has ended.
    ExpiredSubscription,
    /// The redemption asks for more quota than is left.
    InsufficientQuota,
    /// The redeeming merchant does not own the subscription's program.
    UnauthorizedMerchant,
    /// The caller does not own the subscription.
    UnauthorizedAccess,
}

/// Manager-wide configuration.
#[derive(Clone, Copy, Debug, PartialEq, Eq, Structural)]
pub struct ManagerState {
    /// Identity of the manager authority.
    pub authority: u64,
}

/// One user's membership of one subscription program.
#[derive(Clone, Copy, Debug, PartialEq, Eq, Structural)]
pub struct SubscriptionAccount {
    /// Identity of the subscribing user.
    pub user: u64,
    /// Identity of the subscription program.
    pub program_id: u64,
    /// Identity of the membership token.
    pub token_mint: u64,
    /// Redemptions left in the current period.
    pub remaining_quota: u16,
    /// When the current period ends.
    pub expiry_timestamp: i64,
    /// When the membership was created.
    pub created_at: i64,
    /// When the membership was last redeemed; zero if never.
    pub last_redeemed_at: i64,
}

impl SubscriptionAccount {
    /// A record is well formed when its timestamps are not before the epoch.
    pub open spec fn wf(self) -> bool {
        self.expiry_timestamp >= 0 && self.created_at >= 0 && self.last_redeemed_at >= 0
    }
}

/// A subscription was purchased.
#[derive(Clone, Copy, Debug, PartialEq, Eq, Structural)]
pub struct SubscriptionCreatedEvent {
    pub subscription_id: u64,
    pub user: u64,
    pub program_id: u64,
    pub token_mint: u64,
    pub expiry_timestamp: i64,
}

/// Quota was redeemed from a subscription.
#[derive(Clone, Copy, Debug, PartialEq, Eq, Structural)]
pub struct RedemptionEvent {
    pub subscription_id: u64,
    pub user: u64,
    pub program_id: u64,
    pub redemption_amount: u16,
    pub remaining_quota: u16,
    pub timestamp: i64,
}

/// A subscription was renewed for another period.
#[derive(Clone, Copy, Debug, PartialEq, Eq, Structural)]
pub struct SubscriptionRenewedEvent {
    pub subscription_id: u64,
    pub user: u64,
    pub program_id: u64,
    pub new_expiry_timestamp: i64,
    pub timestamp: i64,
}

/// The expiry a renewal at `now` produces: a lapsed subscription restarts
/// from `now`, a live one is extended from its current expiry.
pub open spec fn spec_renewed_expiry(expiry: i64, duration_days: u16, now: i64) -> int {
    let duration_seconds = duration_days as int * SECONDS_PER_DAY as int;
    if now > expiry {
        now + duration_seconds
    } else {
        expiry + duration_seconds
    }
}

/// Sets up the manager under the given authority.
pub fn initialize(authority: u64) -> (r: ManagerState)
    ensures
        r == (ManagerState { authority }),
{
    ManagerState { authority }
}

/// Purchases a subscription: the program must be active and the payment must
/// equal its price exactly.  The membership runs for the program's duration
/// from `now` and starts with the program's full quota.  The host environment
/// moves the payment user-to-vault; rejections create nothing.
pub fn subscribe(
    subscription_program: &SubscriptionProgram,
    subscription_id: u64,
    user: u64,
    program_id: u64,
    nft_mint: u64,
    payment_amount: u64,
    now: i64,
) -> (r: Result<(SubscriptionAccount, SubscriptionCreatedEvent), ErrorCode>)
    requires
        now >= 0,
        now + subscription_program.duration_days as int * SECONDS_PER_DAY as int <= i64::MAX,
    ensures
        !subscription_program.is_active ==> r == Err::<
            (SubscriptionAccount, SubscriptionCreatedEvent),
            ErrorCode,
        >(ErrorCode::InactiveProgram),
        subscription_program.is_active && payment_amount
            != subscription_program.subscription_price ==> r == Err::<
            (SubscriptionAccount, SubscriptionCreatedEvent),
            ErrorCode,
        >(ErrorCode::InvalidPaymentAmount),
        r is Ok <==> subscription_program.is_active && payment_amount
            == subscription_program.subscription_price,
        r matches Ok((subscription, created)) ==> {
            &&& subscription == (SubscriptionAccount {
                user,
                program_id,
                token_mint: nft_mint,
                remaining_quota: subscription_program.redemption_quota,
                expiry_timestamp: (now + subscription_program.duration_days as int
                    * SECONDS_PER_DAY as int) as i64,
                created_at: now,
                last_redeemed_at: 0,
            })
            &&& subscription.wf()
            &&& created == (SubscriptionCreatedEvent {
                subscription_id,
                user,
                program_id,
                token_mint: nft_mint,
                expiry_timestamp: subscription.expiry_timestamp,
            })
        },
{
    if !subscription_program.is_active {
        return Err(ErrorCode::InactiveProgram);
    }
    if payment_amount != subscription_program.subscription_price {
        return Err(ErrorCode::InvalidPaymentAmount);
    }

    let duration_seconds: i64 = (subscription_program.duration_days as i64) * (SECONDS_PER_DAY as i64);
    let expiry_timestamp: i64 = now + duration_seconds;

    let subscription = SubscriptionAccount {
        user,
        program_id,
        token_mint: nft_mint,
        remaining_quota: subscription_program.redemption_quota,
        expiry_timestamp,
        created_at: now,
        last_redeemed_at: 0,
    };

    let created = SubscriptionCreatedEvent {
        subscription_id,
        user,
        program_id,
        token_mint: nft_mint,
        expiry_timestamp,
    };

    Ok((subscription, created))
}

/// Redeems quota from a live subscription, on the authority of the program's
/// merchant.  The subscription must not have expired and must have enough
/// quota left.  Rejections change nothing.
pub fn redeem(
    subscription: &mut SubscriptionAccount,
    subscription_program: &SubscriptionProgram,
    subscription_id: u64,
    merchant_wallet: u64,
    _merchant_signature: [u8; 64],
    redemption_amount: u16,
    now: i64,
) -> (r: Result<RedemptionEvent, ErrorCode>)
    requires
        old(subscription).wf(),
        now >= 0,
    ensures
        final(subscription).wf(),
        r is Err ==> *final(subscription) == *old(subscription),
        now > old(subscription).expiry_timestamp ==> r == Err::<RedemptionEvent, ErrorCode>(
            ErrorCode::ExpiredSubscription,
        ),
        now <= old(subscription).expiry_timestamp && old(subscription).remaining_quota
            < redemption_amount ==> r == Err::<RedemptionEvent, ErrorCode>(
            ErrorCode::InsufficientQuota,
        ),
        now <= old(subscription).expiry_timestamp && old(subscription).remaining_quota
            >= redemption_amount && merchant_wallet != subscription_program.merchant ==> r
            == Err::<RedemptionEvent, ErrorCode>(ErrorCode::UnauthorizedMerchant),
        r is Ok <==> now <= old(subscription).expiry_timestamp && old(
            subscription,
        ).remaining_quota >= redemption_amount && merchant_wallet
            == subscription_program.merchant,
        r is Ok ==> {
            &&& *final(subscription) == (SubscriptionAccount {
                remaining_quota: (old(subscription).remaining_quota - redemption_amount) as u16,
                last_redeemed_at: now,
                ..*old(subscription)
            })
            &&& r == Ok::<RedemptionEvent, ErrorCode>(
                (RedemptionEvent {
                    subscription_id,
                    user: old(subscription).user,
                    program_id: old(subscription).program_id,
                    redemption_amount,
                    remaining_quota: final(subscription).remaining_quota,
                    timestamp: now,
                }),
            )
        },
{
    if now > subscription.expiry_timestamp {
        return Err(ErrorCode::ExpiredSubscription);
    }
    if subscription.remaining_quota < redemption_amount {
        return Err(ErrorCode::InsufficientQuota);
    }
    if merchant_wallet != subscription_program.merchant {
        return Err(ErrorCode::UnauthorizedMerchant);
    }

    subscription.remaining_quota = subscription.remaining_quota - redemption_amount;
    subscription.last_redeemed_at = now;

    Ok(
        RedemptionEvent {
            subscription_id,
            user: subscription.user,
            program_id: subscription.program_id,
            redemption_amount,
            remaining_quota: subscription.remaining_quota,
            timestamp: now,
        },
    )
}

/// Renews a subscription for another period, paying through the pool's
/// payment waterfall: the subscriber's accrued interest and deposits cover
/// the price before the wallet does.  Only the subscription's owner may
/// renew; the program must be active and the payment must equal its price.
/// A lapsed subscription restarts from `now`, a live one is extended, and the
/// quota is refilled.  Rejections change nothing.
pub fn renew_subscription(
    subscription: &mut SubscriptionAccount,
    subscription_program: &SubscriptionProgram,
    user_deposit: &mut Option<UserDepositAccount>,
    pool_state: &mut PoolState,
    subscription_id: u64,
    user: u64,
    merchant_wallet: u64,
    payment_token_mint: u64,
    payment_amount: u64,
    now: i64,
) -> (r: Result<(PaymentEvent, SubscriptionRenewedEvent), ErrorCode>)
    requires
        old(subscription).wf(),
        subscription_program.wf(),
        (*old(user_deposit)) matches Some(d) ==> d.wf(),
        old(pool_state).wf(),
        now >= 0,
        now + subscription_program.duration_days as int * SECONDS_PER_DAY as int <= i64::MAX,
        old(subscription).expiry_timestamp + subscription_program.duration_days as int
            * SECONDS_PER_DAY as int <= i64::MAX,
    ensures
        final(subscription).wf(),
        (*final(user_deposit)) matches Some(d) ==> d.wf(),
        final(pool_state).wf(),
        r is Err ==> *final(subscription) == *old(subscription)
            && *final(user_deposit) == *old(user_deposit)
            && *final(pool_state) == *old(pool_state),
        user != old(subscription).user ==> r == Err::<
            (PaymentEvent, SubscriptionRenewedEvent),
            ErrorCode,
        >(ErrorCode::UnauthorizedAccess),
        user == old(subscription).user && !subscription_program.is_active ==> r == Err::<
            (PaymentEvent, SubscriptionRenewedEvent),
            ErrorCode,
        >(ErrorCode::InactiveProgram),
        user == old(subscription).user && subscription_program.is_active && payment_amount
            != subscription_program.subscription_price ==> r == Err::<
            (PaymentEvent, SubscriptionRenewedEvent),
            ErrorCode,
        >(ErrorCode::InvalidPaymentAmount),
        r is Ok <==> user == old(subscription).user && subscription_program.is_active
            && payment_amount == subscription_program.subscription_price,
        r is Ok ==> {
            &&& *final(subscription) == (SubscriptionAccount {
                expiry_timestamp: spec_renewed_expiry(
                    old(subscription).expiry_timestamp,
                    subscription_program.duration_days,
                    now,
                ) as i64,
                remaining_quota: subscription_program.redemption_quota,
                ..*old(subscription)
            })
            &&& *final(pool_state) == spec_pay_pool_after(
                *old(user_deposit),
                *old(pool_state),
                payment_amount,
                now,
            )
            &&& (*old(user_deposit) matches Some(d) ==> *final(user_deposit) == Some(
                spec_pay_deposit_after(d, *old(pool_state), payment_amount, now),
            ))
            &&& ((*old(user_deposit)) is None ==> (*final(user_deposit)) is None)
            &&& r == Ok::<(PaymentEvent, SubscriptionRenewedEvent), ErrorCode>(
                (
                    spec_pay_event(
                        *old(user_deposit),
                        *old(pool_state),
                        user,
                        merchant_wallet,
                        payment_token_mint,
                        payment_amount,
                        now,
                    ),
                    (SubscriptionRenewedEvent {
                        subscription_id,
                        user: old(subscription).user,
                        program_id: old(subscription).program_id,
                        new_expiry_timestamp: final(subscription).expiry_timestamp,
                        timestamp: now,
                    }),
                ),
            )
        },
{
    if user != subscription.user {
        return Err(ErrorCode::UnauthorizedAccess);
    }
    if !subscription_program.is_active {
        return Err(ErrorCode::InactiveProgram);
    }
    if payment_amount != subscription_program.subscription_price {
        return Err(ErrorCode::InvalidPaymentAmount);
    }

    let duration_seconds: i64 = (subscription_program.duration_days as i64) * (SECONDS_PER_DAY as i64);
    let new_expiry: i64 = if now > subscription.expiry_timestamp {
        now + duration_seconds
    } else {
        subscription.expiry_timestamp + duration_seconds
    };

    let payment_event = match pay_via_pool(
        user_deposit,
        pool_state,
        user,
        merchant_wallet,
        payment_token_mint,
        payment_amount,
        now,
    ) {
        Ok(event) => event,
        Err(_) => {
            // The price is positive by the program's well-formedness, so the
            // payment router cannot reject the amount.
            proof {
                assert(false);
            }
            return Err(ErrorCode::InvalidPaymentAmount);
        },
    };

    subscription.expiry_timestamp = new_expiry;
    subscription.remaining_quota = subscription_program.redemption_quota;

    let renewed = SubscriptionRenewedEvent {
        subscription_id,
        user: subscription.user,
        program_id: subscription.program_id,
        new_expiry_timestamp: subscription.expiry_timestamp,
        timestamp: now,
    };

    Ok((payment_event, renewed))
}

} // verus!
