use sol_contract_template::state::data_account::{
    ACCOUNT_SPACE, DISCRIMINATOR_LENGTH, INIT_SPACE, LENGTH_PREFIX,
};
use sol_contract_template::{DataAccount, ErrorCode, Pubkey, MAX_DATA_LENGTH};

fn key(fill: u8) -> Pubkey {
    Pubkey::new_from_array([fill; 32])
}

fn record(owner: u8, data: &str) -> DataAccount {
    DataAccount { owner: key(owner), data: data.to_string(), created_at: 100, updated_at: 0 }
}

#[test]
fn pubkey_keeps_its_bytes() {
    let mut bytes = [0u8; 32];
    for (i, byte) in bytes.iter_mut().enumerate() {
        *byte = i as u8;
    }
    assert_eq!(Pubkey::new_from_array(bytes).to_bytes(), bytes);
}

#[test]
fn pubkey_equality_looks_at_every_byte() {
    assert_eq!(key(1), key(1));
    assert_ne!(key(1), key(2));
    for i in 0..32 {
        let mut bytes = [1u8; 32];
        bytes[i] = 2;
        assert_ne!(Pubkey::new_from_array(bytes), key(1));
    }
}

#[test]
fn space_is_sized_for_the_largest_payload() {
    assert_eq!(DISCRIMINATOR_LENGTH, 8);
    assert_eq!(LENGTH_PREFIX, 4);
    assert_eq!(INIT_SPACE, 32 + 4 + 1000 + 8 + 8);
    assert_eq!(INIT_SPACE, 1052);
    assert_eq!(ACCOUNT_SPACE, 1060);
}

#[test]
fn is_owner_compares_keys() {
    let account = record(1, "hello");
    assert!(account.is_owner(&key(1)));
    assert!(!account.is_owner(&key(2)));
}

#[test]
fn data_length_is_in_bytes() {
    assert_eq!(record(1, "hello").data_length(), 5);
    assert_eq!(record(1, "").data_length(), 0);
    assert_eq!(record(1, "数据").data_length(), 6);
}

#[test]
fn is_empty_of_the_payload() {
    assert!(record(1, "").is_empty());
    assert!(!record(1, "x").is_empty());
}

#[test]
fn authorize_lets_only_the_owner_through() {
    let account = record(1, "hello");
    assert_eq!(account.authorize(&key(1)), Ok(()));
    assert_eq!(account.authorize(&key(2)), Err(ErrorCode::Unauthorized));
}

#[test]
fn create_sets_every_field() {
    let made = DataAccount::create(key(1), "hello".to_string(), 1_700_000_000).expect("a record");
    assert_eq!(made.owner, key(1));
    assert_eq!(made.data, "hello");
    assert_eq!(made.created_at, 1_700_000_000);
    assert_eq!(made.updated_at, 0);
}

#[test]
fn create_checks_payload_then_time() {
    assert_eq!(DataAccount::create(key(1), String::new(), 5), Err(ErrorCode::DataEmpty));
    assert_eq!(DataAccount::create(key(1), "x".repeat(1001), 5), Err(ErrorCode::DataTooLong));
    assert_eq!(DataAccount::create(key(1), "x".to_string(), 0), Err(ErrorCode::InvalidTimestamp));
    assert_eq!(DataAccount::create(key(1), "x".to_string(), -5), Err(ErrorCode::InvalidTimestamp));
    assert_eq!(DataAccount::create(key(1), String::new(), 0), Err(ErrorCode::DataEmpty));
    assert_eq!(DataAccount::create(key(1), "x".repeat(1001), 0), Err(ErrorCode::DataTooLong));
    assert!(DataAccount::create(key(1), "x".repeat(1000), 1).is_ok());
}

#[test]
fn update_replaces_payload_and_time_of_update() {
    let mut account = record(1, "hello");
    assert_eq!(account.update(&key(1), "hello world".to_string(), 200), Ok(()));
    assert_eq!(account.owner, key(1));
    assert_eq!(account.data, "hello world");
    assert_eq!(account.created_at, 100);
    assert_eq!(account.updated_at, 200);
}

#[test]
fn update_checks_owner_then_payload_then_time() {
    let mut account = record(1, "hello");
    let before = account.clone();
    assert_eq!(account.update(&key(2), "new".to_string(), 200), Err(ErrorCode::Unauthorized));
    assert_eq!(account.update(&key(2), String::new(), 0), Err(ErrorCode::Unauthorized));
    assert_eq!(account.update(&key(1), String::new(), 0), Err(ErrorCode::DataEmpty));
    assert_eq!(account.update(&key(1), "x".repeat(1001), 0), Err(ErrorCode::DataTooLong));
    assert_eq!(account.update(&key(1), "new".to_string(), 0), Err(ErrorCode::InvalidTimestamp));
    assert_eq!(account, before);
}

#[test]
fn stored_len_fits_the_allocation() {
    assert_eq!(record(1, "hello").stored_len(), 8 + 32 + 4 + 5 + 8 + 8);
    let full = record(1, &"x".repeat(MAX_DATA_LENGTH));
    assert_eq!(full.stored_len(), ACCOUNT_SPACE);
}
