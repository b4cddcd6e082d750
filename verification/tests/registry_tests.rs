use rwrd_programs::registry::{
    initialize, register_merchant, register_program, update_merchant_info, verify_merchant,
    MerchantInfo, MerchantRegistryError, RegistryState,
};

fn info_named(first_byte: u8) -> MerchantInfo {
    let mut name = [0u8; 32];
    name[0] = first_byte;
    MerchantInfo { name, category: [0; 16], location: [0; 32], website: [0; 64] }
}

#[test]
fn initialize_records_configuration() {
    assert_eq!(
        initialize(1, 2, 3),
        RegistryState { authority: 1, governance: 2, fee: 3 }
    );
}

#[test]
fn register_merchant_starts_verified() {
    let merchant = register_merchant(5, info_named(b'a'), 40);
    assert_eq!(merchant.merchant_wallet, 5);
    assert_eq!(merchant.info, info_named(b'a'));
    assert!(merchant.verified);
    assert_eq!(merchant.created_at, 40);
    assert_eq!(merchant.updated_at, 40);
}

#[test]
fn verify_merchant_requires_authority() {
    let registry = initialize(1, 2, 3);
    let mut merchant = register_merchant(5, info_named(b'a'), 40);
    merchant.verified = false;
    let before = merchant;
    assert_eq!(
        verify_merchant(&registry, 6, &mut merchant, 41),
        Err(MerchantRegistryError::Unauthorized)
    );
    assert_eq!(merchant, before);
}

#[test]
fn verify_merchant_sets_flag() {
    let registry = initialize(1, 2, 3);
    let mut merchant = register_merchant(5, info_named(b'a'), 40);
    merchant.verified = false;
    verify_merchant(&registry, 1, &mut merchant, 41).unwrap();
    assert!(merchant.verified);
    assert_eq!(merchant.updated_at, 41);
    assert_eq!(merchant.created_at, 40);
}

#[test]
fn update_merchant_info_requires_owner() {
    let mut merchant = register_merchant(5, info_named(b'a'), 40);
    let before = merchant;
    assert_eq!(
        update_merchant_info(&mut merchant, 6, info_named(b'b'), 41),
        Err(MerchantRegistryError::Unauthorized)
    );
    assert_eq!(merchant, before);
}

#[test]
fn update_merchant_info_replaces_details() {
    let mut merchant = register_merchant(5, info_named(b'a'), 40);
    update_merchant_info(&mut merchant, 5, info_named(b'b'), 41).unwrap();
    assert_eq!(merchant.info, info_named(b'b'));
    assert_eq!(merchant.updated_at, 41);
}

#[test]
fn register_program_gates_on_verification() {
    let mut merchant = register_merchant(5, info_named(b'a'), 40);
    assert_eq!(register_program(&merchant, 11), Ok(()));
    merchant.verified = false;
    assert_eq!(
        register_program(&merchant, 11),
        Err(MerchantRegistryError::MerchantNotVerified)
    );
}
