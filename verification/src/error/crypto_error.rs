//! Failures of the cryptographic layer.

use vstd::prelude::*;
use vstd::string::StringExecFns;

verus! {

/// Everything that can go wrong while deriving keys or sealing data.
#[derive(Debug)]
pub enum CryptoError {
    KeyDerivationFailed,
    InvalidKeyLength,
    InvalidParameters,
    SaltGenerationFailed,
    InvalidSaltLength,
    InsufficientMemory,
    InvalidMemoryCost,
    InvalidTimeCost,
    InvalidParallelism,
    InvalidContextLength,
    InvalidPasswordLength,
    EmptyPassword,
    InvalidCiphertext,
    InvalidNonceLength,
    InvalidTagLength,
    MasterKeyDerivationFailed,
    MekGenerationFailed,
    MekEncryptionFailed,
    MekDecryptionFailed,
    InvalidMasterPassword,
    EmptyData,
    EncryptionFailed,
    DecryptionFailed,
    InvalidKey,
    IoError(String),
    Argon2Error(String),
}

impl CryptoError {
    /// The text shown for this error.
    pub open spec fn message_view(self) -> Seq<char> {
        match self {
            CryptoError::KeyDerivationFailed => "Key derivation operation failed"@,
            CryptoError::InvalidKeyLength => "Invalid key length specified"@,
            CryptoError::InvalidParameters => "Invalid parameters provided for operation"@,
            CryptoError::SaltGenerationFailed => "Failed to generate salt"@,
            CryptoError::InvalidSaltLength => "Invalid salt length"@,
            CryptoError::InsufficientMemory => "Insufficient memory for operation"@,
            CryptoError::InvalidMemoryCost => "Invalid memory cost"@,
            CryptoError::InvalidTimeCost => "Invalid time cost"@,
            CryptoError::InvalidParallelism => "Invalid parallelism parameter"@,
            CryptoError::InvalidContextLength => "Invalid context length"@,
            CryptoError::InvalidPasswordLength => "Invalid password length"@,
            CryptoError::EmptyPassword => "Empty password"@,
            CryptoError::InvalidCiphertext => "Invalid or empty ciphertext"@,
            CryptoError::InvalidNonceLength => "Invalid nonce length"@,
            CryptoError::InvalidTagLength => "Invalid authentication tag length"@,
            CryptoError::MasterKeyDerivationFailed => "Failed to derive master key"@,
            CryptoError::MekGenerationFailed => "Failed to generate master encryption key"@,
            CryptoError::MekEncryptionFailed => "Failed to encrypt master encryption key"@,
            CryptoError::MekDecryptionFailed => "Failed to decrypt master encryption key"@,
            CryptoError::InvalidMasterPassword => "Invalid master password provided"@,
            CryptoError::EmptyData => "Cannot encrypt empty data"@,
            CryptoError::EncryptionFailed => "Encryption operation failed"@,
            CryptoError::DecryptionFailed => "Decryption operation failed"@,
            CryptoError::InvalidKey => "Invalid or corrupted key"@,
            CryptoError::IoError(detail) => "IO error: "@ + detail@,
            CryptoError::Argon2Error(detail) => "Argon2 error: "@ + detail@,
        }
    }

    /// Renders the error as text.
    pub fn message(&self) -> (text: String)
        ensures
            text@ == self.message_view(),
    {
        match self {
            CryptoError::KeyDerivationFailed => String::from_str("Key derivation operation failed"),
            CryptoError::InvalidKeyLength => String::from_str("Invalid key length specified"),
            CryptoError::InvalidParameters => String::from_str(
                "Invalid parameters provided for operation",
            ),
            CryptoError::SaltGenerationFailed => String::from_str("Failed to generate salt"),
            CryptoError::InvalidSaltLength => String::from_str("Invalid salt length"),
            CryptoError::InsufficientMemory => String::from_str("Insufficient memory for operation"),
            CryptoError::InvalidMemoryCost => String::from_str("Invalid memory cost"),
            CryptoError::InvalidTimeCost => String::from_str("Invalid time cost"),
            CryptoError::InvalidParallelism => String::from_str("Invalid parallelism parameter"),
            CryptoError::InvalidContextLength => String::from_str("Invalid context length"),
            CryptoError::InvalidPasswordLength => String::from_str("Invalid password length"),
            CryptoError::EmptyPassword => String::from_str("Empty password"),
            CryptoError::InvalidCiphertext => String::from_str("Invalid or empty ciphertext"),
            CryptoError::InvalidNonceLength => String::from_str("Invalid nonce length"),
            CryptoError::InvalidTagLength => String::from_str("Invalid authentication tag length"),
            CryptoError::MasterKeyDerivationFailed => String::from_str(
                "Failed to derive master key",
            ),
            CryptoError::MekGenerationFailed => String::from_str(
                "Failed to generate master encryption key",
            ),
            CryptoError::MekEncryptionFailed => String::from_str(
                "Failed to encrypt master encryption key",
            ),
            CryptoError::MekDecryptionFailed => String::from_str(
                "Failed to decrypt master encryption key",
            ),
            CryptoError::InvalidMasterPassword => String::from_str(
                "Invalid master password provided",
            ),
            CryptoError::EmptyData => String::from_str("Cannot encrypt empty data"),
            CryptoError::EncryptionFailed => String::from_str("Encryption operation failed"),
            CryptoError::DecryptionFailed => String::from_str("Decryption operation failed"),
            CryptoError::InvalidKey => String::from_str("Invalid or corrupted key"),
            CryptoError::IoError(detail) => String::from_str("IO error: ").concat(detail.as_str()),
            CryptoError::Argon2Error(detail) => String::from_str("Argon2 error: ").concat(
                detail.as_str(),
            ),
        }
    }
}

} // verus!
