use password_manager_backend::error::crypto_error::CryptoError;

#[test]
fn every_crypto_error_has_its_text() {
    let cases = vec![
        (CryptoError::KeyDerivationFailed, "Key derivation operation failed"),
        (CryptoError::InvalidKeyLength, "Invalid key length specified"),
        (CryptoError::InvalidParameters, "Invalid parameters provided for operation"),
        (CryptoError::SaltGenerationFailed, "Failed to generate salt"),
        (CryptoError::InvalidSaltLength, "Invalid salt length"),
        (CryptoError::InsufficientMemory, "Insufficient memory for operation"),
        (CryptoError::InvalidMemoryCost, "Invalid memory cost"),
        (CryptoError::InvalidTimeCost, "Invalid time cost"),
        (CryptoError::InvalidParallelism, "Invalid parallelism parameter"),
        (CryptoError::InvalidContextLength, "Invalid context length"),
        (CryptoError::InvalidPasswordLength, "Invalid password length"),
        (CryptoError::EmptyPassword, "Empty password"),
        (CryptoError::InvalidCiphertext, "Invalid or empty ciphertext"),
        (CryptoError::InvalidNonceLength, "Invalid nonce length"),
        (CryptoError::InvalidTagLength, "Invalid authentication tag length"),
        (CryptoError::MasterKeyDerivationFailed, "Failed to derive master key"),
        (CryptoError::MekGenerationFailed, "Failed to generate master encryption key"),
        (CryptoError::MekEncryptionFailed, "Failed to encrypt master encryption key"),
        (CryptoError::MekDecryptionFailed, "Failed to decrypt master encryption key"),
        (CryptoError::InvalidMasterPassword, "Invalid master password provided"),
        (CryptoError::EmptyData, "Cannot encrypt empty data"),
        (CryptoError::EncryptionFailed, "Encryption operation failed"),
        (CryptoError::DecryptionFailed, "Decryption operation failed"),
        (CryptoError::InvalidKey, "Invalid or corrupted key"),
        (CryptoError::IoError("disk full".to_string()), "IO error: disk full"),
        (CryptoError::Argon2Error("salt is too short".to_string()), "Argon2 error: salt is too short"),
    ];
    for (error, text) in cases {
        assert_eq!(error.message(), text);
    }
}
