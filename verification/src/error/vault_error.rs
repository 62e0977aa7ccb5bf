//! Failures of the vault as a whole.

use vstd::prelude::*;
use vstd::std_specs::convert::FromSpecImpl;
use vstd::string::StringExecFns;
use crate::error::auth_error::AuthError;
use crate::error::crypto_error::CryptoError;
use crate::error::entry_error::EntryError;
use crate::error::password_generation_error::PasswordGenerationError;

verus! {

/// Everything that can go wrong in the management of a vault.
#[derive(Debug)]
pub enum VaultError {
    VaultLocked,
    VaultAlreadyUnlocked,
    VaultNotInitialized,
    VaultAlreadyExists,
    VaultNotFound,
    AuthError(AuthError),
    EntryError(EntryError),
    CryptoError(CryptoError),
    PasswordGenerationError(PasswordGenerationError),
    AppError(String),
    InvalidVaultPath,
    IoError(String),
    InvalidKeyDerivationSettings,
    InvalidPasswordGeneratorSettings,
    SettingsOutOfSync,
    AutoLockError(String),
    BackupError(String),
    ValidationError(String),
    InvalidPassword,
    SerializationError(String),
}

impl VaultError {
    /// The text shown for this error.
    pub open spec fn message_view(self) -> Seq<char> {
        match self {
            VaultError::VaultLocked => "Operation failed: vault is locked"@,
            VaultError::VaultAlreadyUnlocked => "Vault is already unlocked"@,
            VaultError::VaultNotInitialized => "Vault is not initialized"@,
            VaultError::VaultAlreadyExists => "Vault already exists at specified path"@,
            VaultError::VaultNotFound => "Vault not found at specified path"@,
            VaultError::AuthError(err) => "Authentication error: "@ + err.message_view(),
            VaultError::EntryError(err) => "Entry error: "@ + err.message_view(),
            VaultError::CryptoError(err) => "Cryptographic error: "@ + err.message_view(),
            VaultError::PasswordGenerationError(err) => "Password generation error: "@
                + err.message_view(),
            VaultError::AppError(detail) => "Storage error: "@ + detail@,
            VaultError::InvalidVaultPath => "Invalid vault path specified"@,
            VaultError::IoError(detail) => "IO error: "@ + detail@,
            VaultError::InvalidKeyDerivationSettings => "Invalid key derivation settings"@,
            VaultError::InvalidPasswordGeneratorSettings => "Invalid password generator settings"@,
            VaultError::SettingsOutOfSync => "Settings are out of sync between components"@,
            VaultError::AutoLockError(detail) => "Auto-lock error: "@ + detail@,
            VaultError::BackupError(detail) => "Backup error: "@ + detail@,
            VaultError::ValidationError(detail) => "Validation error: "@ + detail@,
            VaultError::InvalidPassword => "Invalid password"@,
            VaultError::SerializationError(detail) => "CBOR serialization error: "@ + detail@,
        }
    }

    /// Renders the error as text.
    pub fn message(&self) -> (text: String)
        ensures
            text@ == self.message_view(),
    {
        match self {
            VaultError::VaultLocked => String::from_str("Operation failed: vault is locked"),
            VaultError::VaultAlreadyUnlocked => String::from_str("Vault is already unlocked"),
            VaultError::VaultNotInitialized => String::from_str("Vault is not initialized"),
            VaultError::VaultAlreadyExists => String::from_str(
                "Vault already exists at specified path",
            ),
            VaultError::VaultNotFound => String::from_str("Vault not found at specified path"),
            VaultError::AuthError(err) => {
                let mut text = String::from_str("Authentication error: ");
                text.append(err.message().as_str());
                text
            },
            VaultError::EntryError(err) => {
                let mut text = String::from_str("Entry error: ");
                text.append(err.message().as_str());
                text
            },
            VaultError::CryptoError(err) => {
                let mut text = String::from_str("Cryptographic error: ");
                text.append(err.message().as_str());
                text
            },
            VaultError::PasswordGenerationError(err) => {
                let mut text = String::from_str("Password generation error: ");
                text.append(err.message().as_str());
                text
            },
            VaultError::AppError(detail) => {
                let mut text = String::from_str("Storage error: ");
                text.append(detail.as_str());
                text
            },
            VaultError::InvalidVaultPath => String::from_str("Invalid vault path specified"),
            VaultError::IoError(detail) => {
                let mut text = String::from_str("IO error: ");
                text.append(detail.as_str());
                text
            },
            VaultError::InvalidKeyDerivationSettings => String::from_str(
                "Invalid key derivation settings",
            ),
            VaultError::InvalidPasswordGeneratorSettings => String::from_str(
                "Invalid password generator settings",
            ),
            VaultError::SettingsOutOfSync => String::from_str(
                "Settings are out of sync between components",
            ),
            VaultError::AutoLockError(detail) => {
                let mut text = String::from_str("Auto-lock error: ");
                text.append(detail.as_str());
                text
            },
            VaultError::BackupError(detail) => {
                let mut text = String::from_str("Backup error: ");
                text.append(detail.as_str());
                text
            },
            VaultError::ValidationError(detail) => {
                let mut text = String::from_str("Validation error: ");
                text.append(detail.as_str());
                text
            },
            VaultError::InvalidPassword => String::from_str("Invalid password"),
            VaultError::SerializationError(detail) => {
                let mut text = String::from_str("CBOR serialization error: ");
                text.append(detail.as_str());
                text
            },
        }
    }
}

impl From<AuthError> for VaultError {
    fn from(err: AuthError) -> (out: VaultError) {
        VaultError::AuthError(err)
    }
}

impl FromSpecImpl<AuthError> for VaultError {
    open spec fn obeys_from_spec() -> bool {
        true
    }

    open spec fn from_spec(err: AuthError) -> VaultError {
        VaultError::AuthError(err)
    }
}

impl From<EntryError> for VaultError {
    fn from(err: EntryError) -> (out: VaultError) {
        VaultError::EntryError(err)
    }
}

impl FromSpecImpl<EntryError> for VaultError {
    open spec fn obeys_from_spec() -> bool {
        true
    }

    open spec fn from_spec(err: EntryError) -> VaultError {
        VaultError::EntryError(err)
    }
}

impl From<CryptoError> for VaultError {
    fn from(err: CryptoError) -> (out: VaultError) {
        VaultError::CryptoError(err)
    }
}

impl FromSpecImpl<CryptoError> for VaultError {
    open spec fn obeys_from_spec() -> bool {
        true
    }

    open spec fn from_spec(err: CryptoError) -> VaultError {
        VaultError::CryptoError(err)
    }
}

impl From<PasswordGenerationError> for VaultError {
    fn from(err: PasswordGenerationError) -> (out: VaultError) {
        VaultError::PasswordGenerationError(err)
    }
}

impl FromSpecImpl<PasswordGenerationError> for VaultError {
    open spec fn obeys_from_spec() -> bool {
        true
    }

    open spec fn from_spec(err: PasswordGenerationError) -> VaultError {
        VaultError::PasswordGenerationError(err)
    }
}

} // verus!
