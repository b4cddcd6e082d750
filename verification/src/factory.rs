//! Subscription programs: merchant-defined offers with a price, a duration,
//! and a redemption quota.  Creating one is gated on the merchant registry.

use crate::registry::{register_program, MerchantAccount, MerchantRegistryError};
use vstd::prelude::*;

verus! {

/// Why a factory operation was rejected.
#[derive(Clone, Copy, Debug, PartialEq, Eq, Structural)]
pub enum ErrorCode {
    /// The caller does not own the program it tried to change.
    UnauthorizedAccess,
    /// The subscription price must be positive.
    InvalidPrice,
    /// The duration must be a positive number of days.
    InvalidDuration,
    /// The redemption quota must be positive.
    InvalidQuota,
    /// The program name must be between 1 and 50 bytes.
    InvalidProgramName,
}

/// Why creating a subscription program failed: one of the factory's own
/// validations, or the merchant-registry gate it runs through.
#[derive(Clone, Copy, Debug, PartialEq, Eq, Structural)]
pub enum CreateProgramError {
    Factory(ErrorCode),
    Registry(MerchantRegistryError),
}

/// Factory-wide configuration.
#[derive(Clone, Copy, Debug, PartialEq, Eq, Structural)]
pub struct FactoryState {
    /// Identity of the factory authority.
    pub authority: u64,
}

/// One subscription offer of one merchant.
#[derive(Clone, Debug, PartialEq, Eq)]
pub struct SubscriptionProgram {
    /// Identity of the merchant that owns the offer.
    pub merchant: u64,
    /// Display name, as UTF-8 bytes; between 1 and 50 bytes.
    pub program_name: Vec<u8>,
    /// Price of one subscription period; always positive.
    pub subscription_price: u64,
    /// Length of one period in days; always positive.
    pub duration_days: u16,
    /// Redemptions granted per period; always positive.
    pub redemption_quota: u16,
    /// Whether new subscriptions and renewals are accepted.
    pub is_active: bool,
    /// When the offer was created.
    pub created_at: i64,
    /// When the offer last changed.
    pub updated_at: i64,
}

impl SubscriptionProgram {
    /// Every field obeys the validations that created it.
    pub open spec fn wf(self) -> bool {
        &&& self.subscription_price >= 1
        &&& self.duration_days >= 1
        &&& self.redemption_quota >= 1
        &&& 1 <= self.program_name@.len() <= 50
        &&& self.created_at >= 0
        &&& self.updated_at >= 0
    }
}

/// Sets up the factory under the given authority.
pub fn initialize(authority: u64) -> (r: FactoryState)
    ensures
        r == (FactoryState { authority }),
{
    FactoryState { authority }
}

/// Creates a subscription program after validating its parameters, and admits
/// it with the merchant registry, which insists the merchant is verified.
/// Rejections create nothing.
pub fn create_subscription_program(
    merchant_account: &MerchantAccount,
    merchant_wallet: u64,
    program_id: u64,
    program_name: Vec<u8>,
    subscription_price: u64,
    duration_days: u16,
    redemption_quota: u16,
    now: i64,
) -> (r: Result<SubscriptionProgram, CreateProgramError>)
    requires
        now >= 0,
    ensures
        subscription_price == 0 ==> r == Err::<SubscriptionProgram, CreateProgramError>(
            CreateProgramError::Factory(ErrorCode::InvalidPrice),
        ),
        subscription_price > 0 && duration_days == 0 ==> r == Err::<
            SubscriptionProgram,
            CreateProgramError,
        >(CreateProgramError::Factory(ErrorCode::InvalidDuration)),
        subscription_price > 0 && duration_days > 0 && redemption_quota == 0 ==> r == Err::<
            SubscriptionProgram,
            CreateProgramError,
        >(CreateProgramError::Factory(ErrorCode::InvalidQuota)),
        subscription_price > 0 && duration_days > 0 && redemption_quota > 0 && !(1
            <= program_name@.len() <= 50) ==> r == Err::<SubscriptionProgram, CreateProgramError>(
            CreateProgramError::Factory(ErrorCode::InvalidProgramName),
        ),
        subscription_price > 0 && duration_days > 0 && redemption_quota > 0 && 1
            <= program_name@.len() <= 50 && !merchant_account.verified ==> r == Err::<
            SubscriptionProgram,
            CreateProgramError,
        >(CreateProgramError::Registry(MerchantRegistryError::MerchantNotVerified)),
        r is Ok <==> subscription_price > 0 && duration_days > 0 && redemption_quota > 0 && 1
            <= program_name@.len() <= 50 && merchant_account.verified,
        r matches Ok(program) ==> {
            &&& program == (SubscriptionProgram {
                merchant: merchant_wallet,
                program_name: program.program_name,
                subscription_price,
                duration_days,
                redemption_quota,
                is_active: true,
                created_at: now,
                updated_at: now,
            })
            &&& program.program_name@ == program_name@
            &&& program.wf()
        },
{
    if subscription_price == 0 {
        return Err(CreateProgramError::Factory(ErrorCode::InvalidPrice));
    }
    if duration_days == 0 {
        return Err(CreateProgramError::Factory(ErrorCode::InvalidDuration));
    }
    if redemption_quota == 0 {
        return Err(CreateProgramError::Factory(ErrorCode::InvalidQuota));
    }
    if program_name.len() == 0 || program_name.len() > 50 {
        return Err(CreateProgramError::Factory(ErrorCode::InvalidProgramName));
    }

    match register_program(merchant_account, program_id) {
        Ok(_) => {},
        Err(gate) => {
            return Err(CreateProgramError::Registry(gate));
        },
    }

    Ok(
        SubscriptionProgram {
            merchant: merchant_wallet,
            program_name,
            subscription_price,
            duration_days,
            redemption_quota,
            is_active: true,
            created_at: now,
            updated_at: now,
        },
    )
}

/// Deactivates a program.  Only the owning merchant may do so; anyone else is
/// rejected and nothing changes.
pub fn close_subscription_program(
    subscription_program: &mut SubscriptionProgram,
    merchant_wallet: u64,
    now: i64,
) -> (r: Result<(), ErrorCode>)
    requires
        old(subscription_program).wf(),
        now >= 0,
    ensures
        final(subscription_program).wf(),
        r is Ok <==> merchant_wallet == old(subscription_program).merchant,
        r is Err ==> r == Err::<(), ErrorCode>(ErrorCode::UnauthorizedAccess)
            && *final(subscription_program) == *old(subscription_program),
        r is Ok ==> *final(subscription_program) == (SubscriptionProgram {
            is_active: false,
            updated_at: now,
            program_name: final(subscription_program).program_name,
            ..*old(subscription_program)
        }) && final(subscription_program).program_name@ == old(
            subscription_program,
        ).program_name@,
{
    if merchant_wallet != subscription_program.merchant {
        return Err(ErrorCode::UnauthorizedAccess);
    }
    subscription_program.is_active = false;
    subscription_program.updated_at = now;
    Ok(())
}

/// Updates whichever of the price, duration, and quota are provided, keeping
/// the others.  A provided zero is rejected, and any rejection leaves every
/// field as it was.
pub fn update_subscription_program(
    subscription_program: &mut SubscriptionProgram,
    merchant_wallet: u64,
    subscription_price: Option<u64>,
    duration_days: Option<u16>,
    redemption_quota: Option<u16>,
    now: i64,
) -> (r: Result<(), ErrorCode>)
    requires
        old(subscription_program).wf(),
        now >= 0,
    ensures
        final(subscription_program).wf(),
        r is Err ==> *final(subscription_program) == *old(subscription_program),
        merchant_wallet != old(subscription_program).merchant ==> r == Err::<(), ErrorCode>(
            ErrorCode::UnauthorizedAccess,
        ),
        merchant_wallet == old(subscription_program).merchant && subscription_price == Some(0u64)
            ==> r == Err::<(), ErrorCode>(ErrorCode::InvalidPrice),
        merchant_wallet == old(subscription_program).merchant && subscription_price != Some(0u64)
            && duration_days == Some(0u16) ==> r == Err::<(), ErrorCode>(ErrorCode::InvalidDuration),
        merchant_wallet == old(subscription_program).merchant && subscription_price != Some(0u64)
            && duration_days != Some(0u16) && redemption_quota == Some(0u16) ==> r == Err::<
            (),
            ErrorCode,
        >(ErrorCode::InvalidQuota),
        r is Ok <==> merchant_wallet == old(subscription_program).merchant && subscription_price
            != Some(0u64) && duration_days != Some(0u16) && redemption_quota != Some(0u16),
        r is Ok ==> *final(subscription_program) == (SubscriptionProgram {
            subscription_price: match subscription_price {
                Some(price) => price,
                None => old(subscription_program).subscription_price,
            },
            duration_days: match duration_days {
                Some(days) => days,
                None => old(subscription_program).duration_days,
            },
            redemption_quota: match redemption_quota {
                Some(quota) => quota,
                None => old(subscription_program).redemption_quota,
            },
            updated_at: now,
            program_name: final(subscription_program).program_name,
            ..*old(subscription_program)
        }) && final(subscription_program).program_name@ == old(
            subscription_program,
        ).program_name@,
{
    if merchant_wallet != subscription_program.merchant {
        return Err(ErrorCode::UnauthorizedAccess);
    }
    if let Some(price) = subscription_price {
        if price == 0 {
            return Err(ErrorCode::InvalidPrice);
        }
    }
    if let Some(days) = duration_days {
        if days == 0 {
            return Err(ErrorCode::InvalidDuration);
        }
    }
    if let Some(quota) = redemption_quota {
        if quota == 0 {
            return Err(ErrorCode::InvalidQuota);
        }
    }

    if let Some(price) = subscription_price {
        subscription_program.subscription_price = price;
    }
    if let Some(days) = duration_days {
        subscription_program.duration_days = days;
    }
    if let Some(quota) = redemption_quota {
        subscription_program.redemption_quota = quota;
    }
    subscription_program.updated_at = now;
    Ok(())
}

} // verus!
