use password_manager_backend::crypto::EncryptedData;
use password_manager_backend::error::crypto_error::CryptoError;

#[test]
fn valid_record_keeps_its_parts() {
    let record = EncryptedData::new(vec![1, 2, 3], [4u8; 12], [5u8; 16]).expect("valid");
    assert_eq!(record.ciphertext(), &[1, 2, 3]);
    assert_eq!(record.nonce(), &[4u8; 12]);
    assert_eq!(record.tag(), &[5u8; 16]);
    assert!(record.validate().is_ok());
}

#[test]
fn empty_ciphertext_is_refused() {
    let made = EncryptedData::new(Vec::new(), [0u8; 12], [0u8; 16]);
    assert!(matches!(made, Err(CryptoError::InvalidCiphertext)));
}

#[test]
fn one_byte_is_enough() {
    assert!(EncryptedData::new(vec![0], [0u8; 12], [0u8; 16]).is_ok());
}

#[test]
fn zero_record() {
    let record = EncryptedData::zero();
    assert_eq!(record.ciphertext(), &[0u8; 32]);
    assert_eq!(record.nonce(), &[0u8; 12]);
    assert_eq!(record.tag(), &[0u8; 16]);
    assert!(record.validate().is_ok());
}

#[test]
fn clone_is_equal_in_every_part() {
    let record = EncryptedData::new(vec![9, 8, 7, 6], [1u8; 12], [2u8; 16]).expect("valid");
    let copy = record.clone();
    assert_eq!(copy.ciphertext(), record.ciphertext());
    assert_eq!(copy.nonce(), record.nonce());
    assert_eq!(copy.tag(), record.tag());
}

#[test]
fn wiping_a_record_leaves_zeros() {
    let mut record = EncryptedData::new(vec![9, 8, 7, 6], [1u8; 12], [2u8; 16]).expect("valid");
    record.zeroize();
    assert!(record.ciphertext().is_empty());
    assert_eq!(record.nonce(), &[0u8; 12]);
    assert_eq!(record.tag(), &[0u8; 16]);
    assert!(matches!(record.validate(), Err(CryptoError::InvalidCiphertext)));
}
