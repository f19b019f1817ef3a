use c0dl3_privacy::address_encryption::{AddressEncryption, AddressEncryptionBatch};
use c0dl3_privacy::error::PrivacyError;

#[test]
fn test_address_encryption_creation() {
    let key = [1u8; 32];
    let _encryption = AddressEncryption::new(&key).unwrap();
    assert!(true);
}

#[test]
fn test_sender_address_encryption() {
    let key = [1u8; 32];
    let mut encryption = AddressEncryption::new(&key).unwrap();
    let encrypted = encryption.encrypt_sender("0xsender_address_1230000").unwrap();

    assert!(!encrypted.ciphertext.is_empty());
    assert_ne!(encrypted.nonce, [0u8; 12]);
    assert_ne!(encrypted.tag, [0u8; 16]);
    assert_eq!(encrypted.metadata.address_type, "sender");
    assert_eq!(encrypted.metadata.version, 1);
}

#[test]
fn test_recipient_address_encryption() {
    let key = [1u8; 32];
    let mut encryption = AddressEncryption::new(&key).unwrap();
    let encrypted = encryption.encrypt_recipient("recipient_address_456").unwrap();

    assert!(!encrypted.ciphertext.is_empty());
    assert_ne!(encrypted.nonce, [0u8; 12]);
    assert_ne!(encrypted.tag, [0u8; 16]);
    assert_eq!(encrypted.metadata.address_type, "recipient");
    assert_eq!(encrypted.metadata.version, 1);
}

#[test]
fn test_address_decryption() {
    let key = [1u8; 32];
    let mut encryption = AddressEncryption::new(&key).unwrap();
    let original_address = "0xtest_address_789000000";
    let encrypted = encryption.encrypt_sender(original_address).unwrap();
    let decrypted = encryption.decrypt_address(&encrypted).unwrap();

    assert_eq!(decrypted, original_address);
}

#[test]
fn test_address_verification() {
    let key = [1u8; 32];
    let mut encryption = AddressEncryption::new(&key).unwrap();
    let encrypted = encryption.encrypt_sender("0xtest_address_000000000").unwrap();
    let is_valid = encryption.verify_address(&encrypted).unwrap();

    assert!(is_valid);
}

#[test]
fn test_address_hash_generation() {
    let key = [1u8; 32];
    let mut encryption = AddressEncryption::new(&key).unwrap();
    let encrypted = encryption.encrypt_sender("0xtest_address_000000000").unwrap();
    let hash = encryption.generate_address_hash(&encrypted);

    assert!(!hash.is_empty());
    assert_eq!(hash.len(), 64);
}

#[test]
fn test_address_encryption_batch() {
    let key = [1u8; 32];
    let mut encryption = AddressEncryption::new(&key).unwrap();

    let encrypted_addresses = vec![
        encryption.encrypt_sender("0xsender_address_000001").unwrap(),
        encryption.encrypt_recipient("0xrecipient_addr_000001").unwrap(),
        encryption.encrypt_sender("0xsender_address_000002").unwrap(),
    ];

    let batch = AddressEncryptionBatch::new(encrypted_addresses).unwrap();
    let is_valid = batch.verify_batch().unwrap();

    assert!(is_valid);
    assert_eq!(batch.metadata.count, 3);
}

#[test]
fn test_empty_address_error() {
    let key = [1u8; 32];
    let mut encryption = AddressEncryption::new(&key).unwrap();
    let result = encryption.encrypt_sender("");

    assert!(result.is_err());
}

#[test]
fn test_invalid_decryption() {
    let key = [1u8; 32];
    let mut encryption = AddressEncryption::new(&key).unwrap();
    let encrypted = encryption.encrypt_sender("0xtest_address_000000000").unwrap();

    let mut invalid_encrypted = encrypted.clone();
    invalid_encrypted.tag[0] ^= 1;

    let result = encryption.decrypt_address(&invalid_encrypted);
    assert!(result.is_err());
}

#[test]
fn empty_address_is_refused_as_invalid() {
    let mut encryption = AddressEncryption::new(&[7u8; 32]).unwrap();
    assert_eq!(encryption.encrypt_recipient("").unwrap_err(), PrivacyError::InvalidAddress);
}

#[test]
fn ciphertext_has_the_length_of_the_address() {
    let mut encryption = AddressEncryption::new(&[7u8; 32]).unwrap();
    let encrypted = encryption.encrypt_sender("abc").unwrap();
    assert_eq!(encrypted.ciphertext.len(), 3);
    assert_ne!(encrypted.ciphertext, b"abc".to_vec());
}

#[test]
fn decryption_under_another_key_fails() {
    let mut a = AddressEncryption::new(&[1u8; 32]).unwrap();
    let b = AddressEncryption::new(&[2u8; 32]).unwrap();
    let encrypted = a.encrypt_sender("0xabc").unwrap();
    assert_eq!(b.decrypt_address(&encrypted).unwrap_err(), PrivacyError::AuthenticationFailed);
}

#[test]
fn empty_ciphertext_is_refused() {
    let mut a = AddressEncryption::new(&[1u8; 32]).unwrap();
    let mut encrypted = a.encrypt_sender("0xabc").unwrap();
    encrypted.ciphertext.clear();
    assert_eq!(a.decrypt_address(&encrypted).unwrap_err(), PrivacyError::EmptyCiphertext);
    assert!(!a.verify_address(&encrypted).unwrap());
}

#[test]
fn zero_nonce_fails_integrity_check() {
    let mut a = AddressEncryption::new(&[1u8; 32]).unwrap();
    let mut encrypted = a.encrypt_sender("0xabc").unwrap();
    encrypted.nonce = [0u8; 12];
    assert!(!a.verify_address(&encrypted).unwrap());
}

#[test]
fn unicode_address_roundtrips() {
    let mut a = AddressEncryption::new(&[3u8; 32]).unwrap();
    let addr = "адрес-✓";
    let encrypted = a.encrypt_recipient(addr).unwrap();
    assert_eq!(a.decrypt_address(&encrypted).unwrap(), addr);
}

#[test]
fn empty_batch_is_refused() {
    assert_eq!(AddressEncryptionBatch::new(Vec::new()).unwrap_err(), PrivacyError::EmptyBatch);
}

#[test]
fn batch_proof_lists_address_hashes() {
    let mut a = AddressEncryption::new(&[1u8; 32]).unwrap();
    let e = a.encrypt_sender("0xabc").unwrap();
    let h = a.generate_address_hash(&e);
    let batch = AddressEncryptionBatch::new(vec![e]).unwrap();
    let expected = format!("address_batch_proof:{:?}", vec![h]);
    assert_eq!(batch.batch_proof, expected.as_bytes().to_vec());
}

#[test]
fn batch_with_wrong_count_fails_verification() {
    let mut a = AddressEncryption::new(&[1u8; 32]).unwrap();
    let e = a.encrypt_sender("0xabc").unwrap();
    let mut batch = AddressEncryptionBatch::new(vec![e]).unwrap();
    batch.metadata.count = 2;
    assert!(!batch.verify_batch().unwrap());
}

#[test]
fn encryption_with_given_nonce_and_time_round_trips() {
    let enc = AddressEncryption::new(&[3u8; 32]).unwrap();
    let e = enc.encrypt_address_with("addr_1", "sender", [5u8; 12], 77).unwrap();
    assert_eq!(e.nonce, [5u8; 12]);
    assert_eq!(e.metadata.timestamp, 77);
    assert_eq!(e.metadata.address_type, "sender");
    assert_eq!(e.ciphertext.len(), 6);
    assert_eq!(enc.decrypt_address(&e).unwrap(), "addr_1");
    assert_eq!(enc.encrypt_address_with("", "sender", [5u8; 12], 77).unwrap_err(), PrivacyError::InvalidAddress);
}

#[test]
fn batch_with_given_time() {
    let mut enc = AddressEncryption::new(&[1u8; 32]).unwrap();
    let e = enc.encrypt_sender("addr_a").unwrap();
    let b = AddressEncryptionBatch::new_at(vec![e.clone()], 5).unwrap();
    assert_eq!(b.metadata.count, 1);
    assert_eq!(b.metadata.timestamp, 5);
    assert_eq!(b.metadata.version, 1);
    assert!(b.batch_proof.starts_with(b"address_batch_proof:"));
    assert_eq!(AddressEncryptionBatch::new_at(vec![], 5).unwrap_err(), PrivacyError::EmptyBatch);
}
