use rwrd_programs::factory::{
    close_subscription_program, create_subscription_program, initialize,
    update_subscription_program, CreateProgramError, ErrorCode, FactoryState, SubscriptionProgram,
};
use rwrd_programs::registry::{register_merchant, MerchantAccount, MerchantInfo, MerchantRegistryError};

fn blank_info() -> MerchantInfo {
    MerchantInfo { name: [0; 32], category: [0; 16], location: [0; 32], website: [0; 64] }
}

fn verified_merchant() -> MerchantAccount {
    register_merchant(5, blank_info(), 0)
}

fn coffee_program() -> SubscriptionProgram {
    create_subscription_program(&verified_merchant(), 5, 11, b"coffee".to_vec(), 250, 30, 10, 40)
        .unwrap()
}

#[test]
fn factory_initialize_records_authority() {
    assert_eq!(initialize(4), FactoryState { authority: 4 });
}

#[test]
fn create_program_fills_every_field() {
    let program = coffee_program();
    assert_eq!(program.merchant, 5);
    assert_eq!(program.program_name, b"coffee".to_vec());
    assert_eq!(program.subscription_price, 250);
    assert_eq!(program.duration_days, 30);
    assert_eq!(program.redemption_quota, 10);
    assert!(program.is_active);
    assert_eq!(program.created_at, 40);
    assert_eq!(program.updated_at, 40);
}

#[test]
fn create_program_rejects_zero_price() {
    assert_eq!(
        create_subscription_program(&verified_merchant(), 5, 11, b"coffee".to_vec(), 0, 30, 10, 40),
        Err(CreateProgramError::Factory(ErrorCode::InvalidPrice))
    );
}

#[test]
fn create_program_rejects_zero_duration() {
    assert_eq!(
        create_subscription_program(&verified_merchant(), 5, 11, b"coffee".to_vec(), 250, 0, 10, 40),
        Err(CreateProgramError::Factory(ErrorCode::InvalidDuration))
    );
}

#[test]
fn create_program_rejects_zero_quota() {
    assert_eq!(
        create_subscription_program(&verified_merchant(), 5, 11, b"coffee".to_vec(), 250, 30, 0, 40),
        Err(CreateProgramError::Factory(ErrorCode::InvalidQuota))
    );
}

#[test]
fn create_program_rejects_empty_name() {
    assert_eq!(
        create_subscription_program(&verified_merchant(), 5, 11, Vec::new(), 250, 30, 10, 40),
        Err(CreateProgramError::Factory(ErrorCode::InvalidProgramName))
    );
}

#[test]
fn create_program_rejects_overlong_name() {
    assert_eq!(
        create_subscription_program(&verified_merchant(), 5, 11, vec![b'x'; 51], 250, 30, 10, 40),
        Err(CreateProgramError::Factory(ErrorCode::InvalidProgramName))
    );
    assert!(
        create_subscription_program(&verified_merchant(), 5, 11, vec![b'x'; 50], 250, 30, 10, 40)
            .is_ok()
    );
}

#[test]
fn create_program_gates_on_merchant_verification() {
    let mut merchant = verified_merchant();
    merchant.verified = false;
    assert_eq!(
        create_subscription_program(&merchant, 5, 11, b"coffee".to_vec(), 250, 30, 10, 40),
        Err(CreateProgramError::Registry(MerchantRegistryError::MerchantNotVerified))
    );
}

#[test]
fn close_program_requires_owner() {
    let mut program = coffee_program();
    let before = program.clone();
    assert_eq!(
        close_subscription_program(&mut program, 6, 41),
        Err(ErrorCode::UnauthorizedAccess)
    );
    assert_eq!(program, before);
}

#[test]
fn close_program_deactivates() {
    let mut program = coffee_program();
    close_subscription_program(&mut program, 5, 41).unwrap();
    assert!(!program.is_active);
    assert_eq!(program.updated_at, 41);
    assert_eq!(program.subscription_price, 250);
}

#[test]
fn update_program_requires_owner() {
    let mut program = coffee_program();
    let before = program.clone();
    assert_eq!(
        update_subscription_program(&mut program, 6, Some(300), None, None, 41),
        Err(ErrorCode::UnauthorizedAccess)
    );
    assert_eq!(program, before);
}

#[test]
fn update_program_applies_only_provided_fields() {
    let mut program = coffee_program();
    update_subscription_program(&mut program, 5, Some(300), None, Some(12), 41).unwrap();
    assert_eq!(program.subscription_price, 300);
    assert_eq!(program.duration_days, 30);
    assert_eq!(program.redemption_quota, 12);
    assert_eq!(program.updated_at, 41);
}

#[test]
fn update_program_rejects_zero_price() {
    let mut program = coffee_program();
    let before = program.clone();
    assert_eq!(
        update_subscription_program(&mut program, 5, Some(0), Some(60), None, 41),
        Err(ErrorCode::InvalidPrice)
    );
    assert_eq!(program, before);
}

#[test]
fn update_program_is_all_or_nothing() {
    // A valid price next to an invalid duration must leave both untouched.
    let mut program = coffee_program();
    let before = program.clone();
    assert_eq!(
        update_subscription_program(&mut program, 5, Some(300), Some(0), None, 41),
        Err(ErrorCode::InvalidDuration)
    );
    assert_eq!(program, before);
}

#[test]
fn update_program_rejects_zero_quota() {
    let mut program = coffee_program();
    assert_eq!(
        update_subscription_program(&mut program, 5, None, None, Some(0), 41),
        Err(ErrorCode::InvalidQuota)
    );
}
