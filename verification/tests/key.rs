use asimov_telegram_module::telegram::get_or_create_encryption_key;
use asimov_telegram_module::telegram::key::{
    generate_encryption_key, key_from_bytes, key_from_randomness, EncryptionKey, KeyError,
    KeyLookup, KEY_BYTES,
};

#[test]
fn a_stored_key_is_used_as_it_is() {
    let r = get_or_create_encryption_key(KeyLookup::Found { key: "s3cret".to_string() });
    assert_eq!(r, Ok(EncryptionKey { key: "s3cret".to_string(), created: false }));
}

#[test]
fn a_missing_key_is_made() {
    let made = get_or_create_encryption_key(KeyLookup::NoEntry).unwrap();
    assert!(made.created);
    assert_eq!(made.key.len(), 64);
    assert!(made.key.chars().all(|c| matches!(c, '0'..='9' | 'a'..='f')));
}

#[test]
fn an_unreadable_store_is_an_error() {
    let r = get_or_create_encryption_key(KeyLookup::Failed { reason: "locked".to_string() });
    assert_eq!(r, Err(KeyError::Store { reason: "locked".to_string() }));
}

#[test]
fn bytes_become_lowercase_hex() {
    assert_eq!(key_from_bytes(&vec![1, 2, 3, 15, 16]), "0102030f10");
    assert_eq!(key_from_bytes(&vec![0x00, 0xff, 0xa5, 0x5a]), "00ffa55a");
    assert_eq!(key_from_bytes(&Vec::new()), "");
    assert_eq!(KEY_BYTES, 32);
    assert_eq!(key_from_bytes(&vec![0xab; 32]), "ab".repeat(32));
}

#[test]
fn new_keys_differ() {
    let a = generate_encryption_key().unwrap();
    let b = generate_encryption_key().unwrap();
    assert_eq!(a.len(), 64);
    assert_ne!(a, b);
}

#[test]
fn the_key_follows_from_what_the_randomness_gave() {
    assert_eq!(key_from_randomness(None), None);
    assert_eq!(
        key_from_randomness(Some(vec![0x0f; 32])),
        Some("0f".repeat(32))
    );
    assert_eq!(key_from_randomness(Some(vec![0xde, 0xad])), Some("dead".to_string()));
}
