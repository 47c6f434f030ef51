use anchor_lang::prelude::Pubkey;
use pigeon::account::UserData;
use pigeon::error::PigeonError;
use pigeon::registry::Registry;

fn key(byte: u8) -> Pubkey {
    Pubkey::new_from_array([byte; 32])
}

fn initialized(admin: &Pubkey) -> Registry {
    let mut registry = Registry::new();
    assert_eq!(registry.initialize(admin.clone()), Ok(()));
    registry
}

#[test]
fn end_to_end_lifecycle() {
    let admin = key(7);
    let mut registry = Registry::new();
    assert_eq!(registry.initialize(admin.clone()), Ok(()));
    assert_eq!(registry.onboard_user(&admin, "15551234567", "addrX", "cipherY", 1000), Ok(()));
    assert_eq!(registry.get_total_users(), Ok(1));
    let user = registry.get_user("15551234567").unwrap();
    assert_eq!(user.phone, "15551234567");
    assert_eq!(user.address, "addrX");
    assert_eq!(user.encrypted_mnemonic, "cipherY");
    assert_eq!(user.created_at, 1000);
    assert_eq!(registry.update_user(&admin, "15551234567", "addrZ", "cipherW"), Ok(()));
    assert_eq!(registry.get_user_address("15551234567"), Ok("addrZ".to_string()));
    assert_eq!(registry.get_user("15551234567").unwrap().created_at, 1000);
    assert_eq!(registry.delete_user(&admin, "15551234567"), Ok(()));
    assert_eq!(registry.get_total_users(), Ok(0));
    assert_eq!(registry.user_exists("15551234567"), Err(PigeonError::NotFound));
}

#[test]
fn fresh_registry_has_no_state() {
    let registry = Registry::new();
    assert_eq!(registry.get_total_users(), Err(PigeonError::NotFound));
    assert_eq!(registry.user_exists("1"), Err(PigeonError::NotFound));
}

#[test]
fn initialize_starts_counter_at_zero() {
    let registry = initialized(&key(1));
    assert_eq!(registry.get_total_users(), Ok(0));
}

#[test]
fn second_initialize_is_refused_and_keeps_admin() {
    let admin = key(1);
    let intruder = key(2);
    let mut registry = initialized(&admin);
    assert_eq!(registry.initialize(intruder.clone()), Err(PigeonError::AlreadyExists));
    assert_eq!(registry.onboard_user(&intruder, "100", "a", "m", 1), Err(PigeonError::Unauthorized));
    assert_eq!(registry.onboard_user(&admin, "100", "a", "m", 1), Ok(()));
}

#[test]
fn stranger_is_refused_and_changes_nothing() {
    let admin = key(1);
    let stranger = key(2);
    let mut registry = initialized(&admin);
    assert_eq!(registry.onboard_user(&admin, "100", "addr", "secret", 5), Ok(()));

    assert_eq!(registry.onboard_user(&stranger, "200", "x", "y", 6), Err(PigeonError::Unauthorized));
    assert_eq!(registry.update_user(&stranger, "100", "x", "y"), Err(PigeonError::Unauthorized));
    assert_eq!(registry.delete_user(&stranger, "100"), Err(PigeonError::Unauthorized));
    // also when the request is wrong in another way
    assert_eq!(registry.onboard_user(&stranger, "100", "x", "y", 6), Err(PigeonError::Unauthorized));
    assert_eq!(registry.update_user(&stranger, "300", "x", "y"), Err(PigeonError::Unauthorized));
    assert_eq!(registry.delete_user(&stranger, "300"), Err(PigeonError::Unauthorized));

    assert_eq!(registry.get_total_users(), Ok(1));
    assert_eq!(registry.user_exists("200"), Err(PigeonError::NotFound));
    let user = registry.get_user("100").unwrap();
    assert_eq!(user.address, "addr");
    assert_eq!(user.encrypted_mnemonic, "secret");
    assert_eq!(user.created_at, 5);
}

#[test]
fn mutation_before_initialize_is_unauthorized() {
    let caller = key(3);
    let mut registry = Registry::new();
    assert_eq!(registry.onboard_user(&caller, "100", "a", "m", 1), Err(PigeonError::Unauthorized));
    assert_eq!(registry.update_user(&caller, "100", "a", "m"), Err(PigeonError::Unauthorized));
    assert_eq!(registry.delete_user(&caller, "100"), Err(PigeonError::Unauthorized));
    assert_eq!(registry.get_total_users(), Err(PigeonError::NotFound));
}

#[test]
fn onboarded_user_is_read_back_exactly() {
    let admin = key(9);
    let mut registry = initialized(&admin);
    assert_eq!(registry.onboard_user(&admin, "4915112345678", "wallet-1", "blob-1", 1_700_000_000), Ok(()));
    let user = registry.get_user("4915112345678").unwrap();
    assert_eq!(user.phone, "4915112345678");
    assert_eq!(user.address, "wallet-1");
    assert_eq!(user.encrypted_mnemonic, "blob-1");
    assert_eq!(user.created_at, 1_700_000_000);
    assert_eq!(registry.user_exists("4915112345678"), Ok(true));
    assert_eq!(registry.get_total_users(), Ok(1));
    assert_eq!(registry.onboard_user(&admin, "4915100000000", "wallet-2", "blob-2", 2), Ok(()));
    assert_eq!(registry.get_total_users(), Ok(2));
    assert_eq!(registry.get_user_address("4915112345678"), Ok("wallet-1".to_string()));
    assert_eq!(registry.get_user_address("4915100000000"), Ok("wallet-2".to_string()));
}

#[test]
fn onboarding_a_registered_phone_is_refused() {
    let admin = key(9);
    let mut registry = initialized(&admin);
    assert_eq!(registry.onboard_user(&admin, "100", "first", "one", 10), Ok(()));
    assert_eq!(registry.onboard_user(&admin, "100", "second", "two", 20), Err(PigeonError::AlreadyExists));
    assert_eq!(registry.get_total_users(), Ok(1));
    let user = registry.get_user("100").unwrap();
    assert_eq!(user.address, "first");
    assert_eq!(user.encrypted_mnemonic, "one");
    assert_eq!(user.created_at, 10);
}

#[test]
fn update_replaces_address_and_mnemonic_only() {
    let admin = key(9);
    let mut registry = initialized(&admin);
    assert_eq!(registry.onboard_user(&admin, "100", "old", "old-blob", 77), Ok(()));
    assert_eq!(registry.onboard_user(&admin, "200", "other", "other-blob", 88), Ok(()));
    assert_eq!(registry.update_user(&admin, "100", "new", "new-blob"), Ok(()));
    let user = registry.get_user("100").unwrap();
    assert_eq!(user.phone, "100");
    assert_eq!(user.address, "new");
    assert_eq!(user.encrypted_mnemonic, "new-blob");
    assert_eq!(user.created_at, 77);
    let other = registry.get_user("200").unwrap();
    assert_eq!(other.address, "other");
    assert_eq!(other.encrypted_mnemonic, "other-blob");
    assert_eq!(other.created_at, 88);
    assert_eq!(registry.get_total_users(), Ok(2));
    // the same update again gives the same record
    assert_eq!(registry.update_user(&admin, "100", "new", "new-blob"), Ok(()));
    assert_eq!(registry.get_user("100").unwrap().address, "new");
}

#[test]
fn missing_phone_is_not_found() {
    let admin = key(9);
    let mut registry = initialized(&admin);
    assert_eq!(registry.update_user(&admin, "100", "a", "m"), Err(PigeonError::NotFound));
    assert_eq!(registry.delete_user(&admin, "100"), Err(PigeonError::NotFound));
    assert!(matches!(registry.get_user("100"), Err(PigeonError::NotFound)));
    assert_eq!(registry.get_user_address("100"), Err(PigeonError::NotFound));
    assert_eq!(registry.user_exists("100"), Err(PigeonError::NotFound));
    assert_eq!(registry.get_total_users(), Ok(0));
}

#[test]
fn deleted_phone_can_be_onboarded_afresh() {
    let admin = key(9);
    let mut registry = initialized(&admin);
    assert_eq!(registry.onboard_user(&admin, "100", "first", "one", 10), Ok(()));
    assert_eq!(registry.onboard_user(&admin, "200", "keep", "kept", 11), Ok(()));
    assert_eq!(registry.delete_user(&admin, "100"), Ok(()));
    assert!(matches!(registry.get_user("100"), Err(PigeonError::NotFound)));
    assert_eq!(registry.get_total_users(), Ok(1));
    assert_eq!(registry.get_user("200").unwrap().address, "keep");
    assert_eq!(registry.onboard_user(&admin, "100", "second", "two", 20), Ok(()));
    let user = registry.get_user("100").unwrap();
    assert_eq!(user.address, "second");
    assert_eq!(user.encrypted_mnemonic, "two");
    assert_eq!(user.created_at, 20);
    assert_eq!(registry.get_total_users(), Ok(2));
}

#[test]
fn counter_returns_to_start_after_onboarding_and_deleting() {
    let admin = key(9);
    let mut registry = initialized(&admin);
    assert_eq!(registry.onboard_user(&admin, "1", "a", "m", 0), Ok(()));
    let start = registry.get_total_users();
    let phones = ["10", "11", "12", "13", "14"];
    let mut expected = 1;
    for phone in phones {
        assert_eq!(registry.onboard_user(&admin, phone, "a", "m", 3), Ok(()));
        expected += 1;
        assert_eq!(registry.get_total_users(), Ok(expected));
    }
    for phone in phones {
        assert_eq!(registry.delete_user(&admin, phone), Ok(()));
        expected -= 1;
        assert_eq!(registry.get_total_users(), Ok(expected));
    }
    assert_eq!(registry.get_total_users(), start);
    assert_eq!(registry.get_user("1").unwrap().address, "a");
    // nothing of the batch is left to delete
    assert_eq!(registry.delete_user(&admin, "10"), Err(PigeonError::NotFound));
    assert_eq!(registry.get_total_users(), start);
}

#[test]
fn phones_are_told_apart_exactly() {
    let admin = key(9);
    let mut registry = initialized(&admin);
    assert_eq!(registry.onboard_user(&admin, "100", "a", "m", 1), Ok(()));
    assert_eq!(registry.user_exists("10"), Err(PigeonError::NotFound));
    assert_eq!(registry.user_exists("1000"), Err(PigeonError::NotFound));
    assert_eq!(registry.user_exists(""), Err(PigeonError::NotFound));
    assert_eq!(registry.onboard_user(&admin, "", "empty", "m", 2), Ok(()));
    assert_eq!(registry.get_user_address(""), Ok("empty".to_string()));
}

#[test]
fn fields_at_their_ceilings_are_stored() {
    let admin = key(9);
    let mut registry = initialized(&admin);
    let phone = "1".repeat(20);
    let address = "A".repeat(64);
    let mnemonic = "c".repeat(512);
    assert_eq!(registry.onboard_user(&admin, &phone, &address, &mnemonic, u64::MAX), Ok(()));
    let user = registry.get_user(&phone).unwrap();
    assert_eq!(user.address, address);
    assert_eq!(user.encrypted_mnemonic, mnemonic);
    assert_eq!(user.created_at, u64::MAX);
}

#[test]
fn record_read_back_equals_record_written() {
    let admin = key(4);
    let mut registry = initialized(&admin);
    assert_eq!(registry.onboard_user(&admin, "380501234567", "wallet", "blob", 1234), Ok(()));
    assert_eq!(
        registry.get_user("380501234567"),
        Ok(UserData {
            phone: "380501234567".to_string(),
            address: "wallet".to_string(),
            encrypted_mnemonic: "blob".to_string(),
            created_at: 1234,
        })
    );
}
