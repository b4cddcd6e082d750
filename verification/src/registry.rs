//! Merchant registry: the records and transitions that track who may borrow.
//! The lending pool consults a merchant's `verified` flag when underwriting.

use vstd::prelude::*;

verus! {

/// Why a registry operation was rejected.
#[derive(Clone, Copy, Debug, PartialEq, Eq, Structural)]
pub enum MerchantRegistryError {
    /// The merchant exists but has not been verified.
    MerchantNotVerified,
    /// Only the registry authority may perform this action.
    Unauthorized,
    /// The supplied merchant information was rejected.
    InvalidMerchantInfo,
}

/// Descriptive details of a merchant, held as fixed-size UTF-8 byte fields.
#[derive(Clone, Copy, Debug, PartialEq, Eq)]
pub struct MerchantInfo {
    pub name: [u8; 32],
    pub category: [u8; 16],
    pub location: [u8; 32],
    pub website: [u8; 64],
}

/// Registry-wide configuration.
#[derive(Clone, Copy, Debug, PartialEq, Eq, Structural)]
pub struct RegistryState {
    /// Identity of the protocol authority.
    pub authority: u64,
    /// Identity of the governance account.
    pub governance: u64,
    /// Protocol fee in percent.
    pub fee: u8,
}

/// One registered merchant.
#[derive(Clone, Copy, Debug, PartialEq, Eq)]
pub struct MerchantAccount {
    /// Identity of the merchant's wallet.
    pub merchant_wallet: u64,
    /// Descriptive details.
    pub info: MerchantInfo,
    /// Whether the merchant has been verified and may borrow.
    pub verified: bool,
    /// When the merchant was registered.
    pub created_at: i64,
    /// When the record last changed.
    pub updated_at: i64,
}

/// Sets up the registry with its authority, governance account, and fee.
pub fn initialize(authority: u64, governance: u64, fee: u8) -> (r: RegistryState)
    ensures
        r == (RegistryState { authority, governance, fee }),
{
    RegistryState { authority, governance, fee }
}

/// Registers a new merchant.  The record starts out verified.
pub fn register_merchant(merchant_wallet: u64, merchant_info: MerchantInfo, now: i64) -> (r:
    MerchantAccount)
    ensures
        r == (MerchantAccount {
            merchant_wallet,
            info: merchant_info,
            verified: true,
            created_at: now,
            updated_at: now,
        }),
{
    MerchantAccount {
        merchant_wallet,
        info: merchant_info,
        verified: true,
        created_at: now,
        updated_at: now,
    }
}

/// Marks a merchant verified.  Only the registry authority may do so; anyone
/// else is rejected and nothing changes.
pub fn verify_merchant(
    registry_state: &RegistryState,
    authority: u64,
    merchant_account: &mut MerchantAccount,
    now: i64,
) -> (r: Result<(), MerchantRegistryError>)
    ensures
        r is Ok <==> authority == registry_state.authority,
        r is Err ==> r == Err::<(), MerchantRegistryError>(MerchantRegistryError::Unauthorized)
            && *final(merchant_account) == *old(merchant_account),
        r is Ok ==> *final(merchant_account) == (MerchantAccount {
            verified: true,
            updated_at: now,
            ..*old(merchant_account)
        }),
{
    if authority != registry_state.authority {
        return Err(MerchantRegistryError::Unauthorized);
    }
    merchant_account.verified = true;
    merchant_account.updated_at = now;
    Ok(())
}

/// Replaces a merchant's descriptive details.  Only the merchant's own wallet
/// may do so; anyone else is rejected and nothing changes.
pub fn update_merchant_info(
    merchant_account: &mut MerchantAccount,
    merchant_wallet: u64,
    merchant_info: MerchantInfo,
    now: i64,
) -> (r: Result<(), MerchantRegistryError>)
    ensures
        r is Ok <==> merchant_wallet == old(merchant_account).merchant_wallet,
        r is Err ==> r == Err::<(), MerchantRegistryError>(MerchantRegistryError::Unauthorized)
            && *final(merchant_account) == *old(merchant_account),
        r is Ok ==> *final(merchant_account) == (MerchantAccount {
            info: merchant_info,
            updated_at: now,
            ..*old(merchant_account)
        }),
{
    if merchant_wallet != merchant_account.merchant_wallet {
        return Err(MerchantRegistryError::Unauthorized);
    }
    merchant_account.info = merchant_info;
    merchant_account.updated_at = now;
    Ok(())
}

/// Admits a subscription program for a merchant: the merchant must exist and
/// be verified; nothing is recorded beyond that gate.
pub fn register_program(merchant_account: &MerchantAccount, _program_id: u64) -> (r: Result<
    (),
    MerchantRegistryError,
>)
    ensures
        r is Ok <==> merchant_account.verified,
        !merchant_account.verified ==> r == Err::<(), MerchantRegistryError>(
            MerchantRegistryError::MerchantNotVerified,
        ),
{
    if !merchant_account.verified {
        return Err(MerchantRegistryError::MerchantNotVerified);
    }
    Ok(())
}

} // verus!
