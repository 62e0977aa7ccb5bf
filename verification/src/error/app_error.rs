//! The errors of the application, and the form in which a user interface
//! gets them.

use vstd::prelude::*;
use vstd::std_specs::convert::FromSpecImpl;
use vstd::string::StringExecFns;
use crate::error::auth_error::AuthError;
use crate::error::category_error::CategoryError;
use crate::error::crypto_error::CryptoError;
use crate::error::entry_error::EntryError;
use crate::error::password_generation_error::PasswordGenerationError;
use crate::error::serializable_error::SerializableError;
use crate::error::serializable_error::WireError;
use crate::error::notation::uuid_text;
use crate::error::notation::uuid_to_text;
use crate::error::vault_error::VaultError;

verus! {

/// Everything that can go wrong anywhere in the application.
#[derive(Debug)]
pub enum AppError {
    IoError(String),
    PathNotFound(String),
    InsufficientPermissions(String),
    DirectoryCreationFailed(String),
    DirectoryReadFailed(String),
    DataCorruption(String),
    PasswordsDoNotMatch,
    PasswordTooShort,
    PasswordTooLong,
    PasswordTooWeak,
    PasswordGenerationError(PasswordGenerationError),
    AuthError(AuthError),
    CorruptedFile(String, String),
    VerificationFailed(String),
    SerializationFailed(String),
    DeserializationFailed(String),
    BackupCreationFailed(String, String),
    BackupRestoreFailed(String, String),
    BackupDeletionFailed,
    AtomicSaveFailed(String, String),
    TemporaryFileError(String),
    VaultLocked,
    VaultNotInitialized,
    InvalidVaultState(String),
    VaultAlreadyExists,
    VaultNotFound,
    EntryError(EntryError),
    CategoryError(CategoryError),
    CryptoError(CryptoError),
    VaultError(VaultError),
}

impl AppError {
    /// The text shown for this error.
    pub open spec fn message_view(self) -> Seq<char> {
        match self {
            AppError::IoError(detail) => "IO error: "@ + detail@,
            AppError::PathNotFound(path) => "Path not found: "@ + path@,
            AppError::InsufficientPermissions(path) => "Insufficient permissions for path: "@
                + path@,
            AppError::DirectoryCreationFailed(path) => "Failed to create directory: "@ + path@,
            AppError::DirectoryReadFailed(path) => "Failed to read directory: "@ + path@,
            AppError::DataCorruption(detail) => "Data corruption: "@ + detail@,
            AppError::PasswordsDoNotMatch => "Passwords do not match"@,
            AppError::PasswordTooShort => "Password is too short"@,
            AppError::PasswordTooLong => "Password is too long"@,
            AppError::PasswordTooWeak => "Password is too weak"@,
            AppError::PasswordGenerationError(err) => "Password generation error: "@
                + err.message_view(),
            AppError::AuthError(err) => "Authentication error: "@ + err.message_view(),
            AppError::CorruptedFile(path, detail) => "Corrupted vault file at "@
                + path@
                + ": "@
                + detail@,
            AppError::VerificationFailed(detail) => "Verification failed: "@ + detail@,
            AppError::SerializationFailed(detail) => "Failed to serialize vault data: "@ + detail@,
            AppError::DeserializationFailed(detail) => "Failed to deserialize vault data: "@
                + detail@,
            AppError::BackupCreationFailed(path, detail) => "Failed to create backup at "@
                + path@
                + ": "@
                + detail@,
            AppError::BackupRestoreFailed(path, detail) => "Failed to restore from backup "@
                + path@
                + ": "@
                + detail@,
            AppError::BackupDeletionFailed => "Failed to delete backup files"@,
            AppError::AtomicSaveFailed(path, detail) => "Atomic save failed for temporary file "@
                + path@
                + ": "@
                + detail@,
            AppError::TemporaryFileError(detail) => "Temporary file error: "@ + detail@,
            AppError::VaultLocked => "Cannot perform operation: vault is locked"@,
            AppError::VaultNotInitialized => "Vault is not initialized"@,
            AppError::InvalidVaultState(detail) => "Invalid vault state: "@ + detail@,
            AppError::VaultAlreadyExists => "Vault already exists"@,
            AppError::VaultNotFound => "Vault not found"@,
            AppError::EntryError(err) => err.message_view(),
            AppError::CategoryError(err) => err.message_view(),
            AppError::CryptoError(err) => err.message_view(),
            AppError::VaultError(err) => err.message_view(),
        }
    }

    /// Renders the error as text.
    pub fn message(&self) -> (text: String)
        ensures
            text@ == self.message_view(),
    {
        match self {
            AppError::IoError(detail) => {
                let mut text = String::from_str("IO error: ");
                text.append(detail.as_str());
                text
            },
            AppError::PathNotFound(path) => {
                let mut text = String::from_str("Path not found: ");
                text.append(path.as_str());
                text
            },
            AppError::InsufficientPermissions(path) => {
                let mut text = String::from_str("Insufficient permissions for path: ");
                text.append(path.as_str());
                text
            },
            AppError::DirectoryCreationFailed(path) => {
                let mut text = String::from_str("Failed to create directory: ");
                text.append(path.as_str());
                text
            },
            AppError::DirectoryReadFailed(path) => {
                let mut text = String::from_str("Failed to read directory: ");
                text.append(path.as_str());
                text
            },
            AppError::DataCorruption(detail) => {
                let mut text = String::from_str("Data corruption: ");
                text.append(detail.as_str());
                text
            },
            AppError::PasswordsDoNotMatch => String::from_str("Passwords do not match"),
            AppError::PasswordTooShort => String::from_str("Password is too short"),
            AppError::PasswordTooLong => String::from_str("Password is too long"),
            AppError::PasswordTooWeak => String::from_str("Password is too weak"),
            AppError::PasswordGenerationError(err) => {
                let mut text = String::from_str("Password generation error: ");
                text.append(err.message().as_str());
                text
            },
            AppError::AuthError(err) => {
                let mut text = String::from_str("Authentication error: ");
                text.append(err.message().as_str());
                text
            },
            AppError::CorruptedFile(path, detail) => {
                let mut text = String::from_str("Corrupted vault file at ");
                text.append(path.as_str());
                text.append(": ");
                text.append(detail.as_str());
                text
            },
            AppError::VerificationFailed(detail) => {
                let mut text = String::from_str("Verification failed: ");
                text.append(detail.as_str());
                text
            },
            AppError::SerializationFailed(detail) => {
                let mut text = String::from_str("Failed to serialize vault data: ");
                text.append(detail.as_str());
                text
            },
            AppError::DeserializationFailed(detail) => {
                let mut text = String::from_str("Failed to deserialize vault data: ");
                text.append(detail.as_str());
                text
            },
            AppError::BackupCreationFailed(path, detail) => {
                let mut text = String::from_str("Failed to create backup at ");
                text.append(path.as_str());
                text.append(": ");
                text.append(detail.as_str());
                text
            },
            AppError::BackupRestoreFailed(path, detail) => {
                let mut text = String::from_str("Failed to restore from backup ");
                text.append(path.as_str());
                text.append(": ");
                text.append(detail.as_str());
                text
            },
            AppError::BackupDeletionFailed => String::from_str("Failed to delete backup files"),
            AppError::AtomicSaveFailed(path, detail) => {
                let mut text = String::from_str("Atomic save failed for temporary file ");
                text.append(path.as_str());
                text.append(": ");
                text.append(detail.as_str());
                text
            },
            AppError::TemporaryFileError(detail) => {
                let mut text = String::from_str("Temporary file error: ");
                text.append(detail.as_str());
                text
            },
            AppError::VaultLocked => String::from_str("Cannot perform operation: vault is locked"),
            AppError::VaultNotInitialized => String::from_str("Vault is not initialized"),
            AppError::InvalidVaultState(detail) => {
                let mut text = String::from_str("Invalid vault state: ");
                text.append(detail.as_str());
                text
            },
            AppError::VaultAlreadyExists => String::from_str("Vault already exists"),
            AppError::VaultNotFound => String::from_str("Vault not found"),
            AppError::EntryError(err) => err.message(),
            AppError::CategoryError(err) => err.message(),
            AppError::CryptoError(err) => err.message(),
            AppError::VaultError(err) => err.message(),
        }
    }
}


/// The length that a failure of the password generator speaks of, if it
/// speaks of one.
pub open spec fn reported_length(err: PasswordGenerationError) -> Option<usize> {
    match err {
        PasswordGenerationError::LengthTooShort(length) => Some(length),
        PasswordGenerationError::LengthTooLong(length) => Some(length),
        PasswordGenerationError::ExcessiveMinimums(_, length) => Some(length),
        PasswordGenerationError::EmptyCharacterSet
        | PasswordGenerationError::RandomGenerationFailed(_)
        | PasswordGenerationError::NoValidCharacters
        | PasswordGenerationError::SystemError(_) => None,
    }
}

fn reported_length_of(err: &PasswordGenerationError) -> (length: Option<usize>)
    ensures
        length == reported_length(*err),
{
    match err {
        PasswordGenerationError::LengthTooShort(length) => Some(*length),
        PasswordGenerationError::LengthTooLong(length) => Some(*length),
        PasswordGenerationError::ExcessiveMinimums(_, length) => Some(*length),
        PasswordGenerationError::EmptyCharacterSet
        | PasswordGenerationError::RandomGenerationFailed(_)
        | PasswordGenerationError::NoValidCharacters
        | PasswordGenerationError::SystemError(_) => None,
    }
}

impl AppError {
    /// The form in which a user interface gets this error: a kind, a code
    /// that stays the same across versions, a message, and what else is
    /// known. Errors without a code of their own get the last code of their
    /// kind, or `UNKNOWN`, with their text as message. Every variant is
    /// named, so that a new one cannot go without a form.
    pub open spec fn wire_form(self) -> WireError {
        match self {
            AppError::AuthError(err) => match err {
                AuthError::InvalidPassword => WireError::Auth {
                    code: "AUTH001"@,
                    message: "Invalid or incorrect master password"@,
                    details: None,
                },
                AuthError::VaultLocked => WireError::Auth {
                    code: "AUTH002"@,
                    message: "Vault is locked; unlock it before proceeding"@,
                    details: None,
                },
                AuthError::VaultUnlocked => WireError::Auth {
                    code: "AUTH003"@,
                    message: "Vault is already unlocked"@,
                    details: None,
                },
                AuthError::KeyDerivationError(detail) => WireError::Auth {
                    code: "AUTH004"@,
                    message: "Key derivation failed"@,
                    details: Some(detail@),
                },
                AuthError::OperationError(detail) => WireError::Auth {
                    code: "AUTH005"@,
                    message: "Operation failed"@,
                    details: Some(detail@),
                },
                AuthError::CryptoError(_) | AuthError::PasswordMismatch => WireError::Auth {
                    code: "AUTH999"@,
                    message: err.message_view(),
                    details: None,
                },
            },
            AppError::CryptoError(err) => match err {
                CryptoError::KeyDerivationFailed => WireError::Crypto {
                    code: "CRYPTO001"@,
                    message: "Key derivation operation failed"@,
                    details: None,
                },
                CryptoError::InvalidKeyLength => WireError::Crypto {
                    code: "CRYPTO002"@,
                    message: "Invalid key length specified"@,
                    details: None,
                },
                CryptoError::EmptyPassword => WireError::Crypto {
                    code: "CRYPTO003"@,
                    message: "Password cannot be empty"@,
                    details: None,
                },
                CryptoError::InvalidParameters => WireError::Crypto {
                    code: "CRYPTO004"@,
                    message: "Invalid parameters provided for operation"@,
                    details: None,
                },
                CryptoError::SaltGenerationFailed | CryptoError::InvalidSaltLength
                | CryptoError::InsufficientMemory | CryptoError::InvalidMemoryCost
                | CryptoError::InvalidTimeCost | CryptoError::InvalidParallelism
                | CryptoError::InvalidContextLength | CryptoError::InvalidPasswordLength
                | CryptoError::InvalidCiphertext | CryptoError::InvalidNonceLength
                | CryptoError::InvalidTagLength | CryptoError::MasterKeyDerivationFailed
                | CryptoError::MekGenerationFailed | CryptoError::MekEncryptionFailed
                | CryptoError::MekDecryptionFailed | CryptoError::InvalidMasterPassword
                | CryptoError::EmptyData | CryptoError::EncryptionFailed
                | CryptoError::DecryptionFailed | CryptoError::InvalidKey
                | CryptoError::IoError(_) | CryptoError::Argon2Error(_) => WireError::Crypto {
                    code: "CRYPTO999"@,
                    message: err.message_view(),
                    details: None,
                },
            },
            AppError::CategoryError(err) => match err {
                CategoryError::InvalidName(name) => WireError::Category {
                    code: "CAT001"@,
                    message: "Invalid category name"@,
                    category_id: None,
                    category_name: Some(name@),
                },
                CategoryError::DuplicateName(name) => WireError::Category {
                    code: "CAT002"@,
                    message: "Category with this name already exists"@,
                    category_id: None,
                    category_name: Some(name@),
                },
                CategoryError::NotFound(id) => WireError::Category {
                    code: "CAT003"@,
                    message: "Category not found"@,
                    category_id: Some(uuid_text(id)),
                    category_name: None,
                },
                CategoryError::NotFoundByName(name) => WireError::Category {
                    code: "CAT004"@,
                    message: "Category not found"@,
                    category_id: None,
                    category_name: Some(name@),
                },
                CategoryError::ValidationError(_) => WireError::Category {
                    code: "CAT999"@,
                    message: err.message_view(),
                    category_id: None,
                    category_name: None,
                },
            },
            AppError::EntryError(err) => match err {
                EntryError::InvalidPassword => WireError::Entry {
                    code: "ENTRY001"@,
                    message: "Invalid password: cannot be empty"@,
                    entry_id: None,
                    field_name: Some("password"@),
                },
                EntryError::InvalidTitle => WireError::Entry {
                    code: "ENTRY002"@,
                    message: "Invalid title: cannot be empty"@,
                    entry_id: None,
                    field_name: Some("title"@),
                },
                EntryError::NotFound(id) => WireError::Entry {
                    code: "ENTRY003"@,
                    message: "Entry not found"@,
                    entry_id: Some(uuid_text(id)),
                    field_name: None,
                },
                EntryError::EncryptionError(_) | EntryError::DecryptionError(_)
                | EntryError::CategoryError(_) | EntryError::InvalidUrl
                | EntryError::InvalidLength(_) | EntryError::DuplicateEntry
                | EntryError::ValidationError(_) => WireError::Entry {
                    code: "ENTRY999"@,
                    message: err.message_view(),
                    entry_id: None,
                    field_name: None,
                },
            },
            AppError::IoError(detail) => WireError::Io {
                code: "IO001"@,
                message: "IO operation failed"@,
                path: None,
                operation: Some(detail@),
            },
            AppError::PathNotFound(path) => WireError::Io {
                code: "IO002"@,
                message: "Path not found"@,
                path: Some(path@),
                operation: None,
            },
            AppError::PasswordGenerationError(err) => WireError::PasswordGeneration {
                code: "PWD001"@,
                message: "Password generation failed"@,
                length: reported_length(err),
                details: Some(err.message_view()),
            },
            AppError::PasswordTooShort => WireError::PasswordGeneration {
                code: "PWD002"@,
                message: "Password is too short"@,
                length: None,
                details: None,
            },
            AppError::PasswordTooLong => WireError::PasswordGeneration {
                code: "PWD003"@,
                message: "Password is too long"@,
                length: None,
                details: None,
            },
            AppError::PasswordTooWeak => WireError::PasswordGeneration {
                code: "PWD004"@,
                message: "Password does not meet strength requirements"@,
                length: None,
                details: None,
            },
            AppError::PasswordsDoNotMatch => WireError::Validation {
                code: "VAL001"@,
                message: "Passwords do not match"@,
                field: Some("password"@),
                reason: None,
            },
            AppError::VaultError(err) => match err {
                VaultError::SettingsOutOfSync => WireError::Vault {
                    code: "VAULT006"@,
                    message: "Settings are out of sync between components"@,
                    path: None,
                    details: None,
                },
                VaultError::VaultLocked | VaultError::VaultAlreadyUnlocked
                | VaultError::VaultNotInitialized | VaultError::VaultAlreadyExists
                | VaultError::VaultNotFound | VaultError::AuthError(_)
                | VaultError::EntryError(_) | VaultError::CryptoError(_)
                | VaultError::PasswordGenerationError(_) | VaultError::AppError(_)
                | VaultError::InvalidVaultPath | VaultError::IoError(_)
                | VaultError::InvalidKeyDerivationSettings
                | VaultError::InvalidPasswordGeneratorSettings | VaultError::AutoLockError(_)
                | VaultError::BackupError(_) | VaultError::ValidationError(_)
                | VaultError::InvalidPassword | VaultError::SerializationError(_) => WireError::Vault {
                    code: "VAULT001"@,
                    message: "Vault operation failed"@,
                    path: None,
                    details: Some(err.message_view()),
                },
            },
            AppError::VaultLocked => WireError::Vault {
                code: "VAULT002"@,
                message: "Vault is locked"@,
                path: None,
                details: None,
            },
            AppError::VaultNotInitialized => WireError::Vault {
                code: "VAULT003"@,
                message: "Vault is not initialized"@,
                path: None,
                details: None,
            },
            AppError::VaultAlreadyExists => WireError::Vault {
                code: "VAULT004"@,
                message: "Vault already exists"@,
                path: None,
                details: None,
            },
            AppError::VaultNotFound => WireError::Vault {
                code: "VAULT005"@,
                message: "Vault not found"@,
                path: None,
                details: None,
            },
            AppError::DataCorruption(detail) => WireError::Data {
                code: "DATA001"@,
                message: "Data corruption detected"@,
                details: Some(detail@),
            },
            AppError::SerializationFailed(detail) => WireError::Data {
                code: "DATA002"@,
                message: "Failed to serialize data"@,
                details: Some(detail@),
            },
            AppError::DeserializationFailed(detail) => WireError::Data {
                code: "DATA003"@,
                message: "Failed to deserialize data"@,
                details: Some(detail@),
            },
            AppError::BackupCreationFailed(path, detail) => WireError::Vault {
                code: "BACKUP001"@,
                message: "Failed to create backup"@,
                path: Some(path@),
                details: Some(detail@),
            },
            AppError::BackupRestoreFailed(path, detail) => WireError::Vault {
                code: "BACKUP002"@,
                message: "Failed to restore backup"@,
                path: Some(path@),
                details: Some(detail@),
            },
            AppError::BackupDeletionFailed => WireError::Vault {
                code: "BACKUP003"@,
                message: "Failed to delete backup files"@,
                path: None,
                details: None,
            },
            AppError::InsufficientPermissions(path) => WireError::Io {
                code: "IO003"@,
                message: "Insufficient permissions"@,
                path: Some(path@),
                operation: None,
            },
            AppError::DirectoryCreationFailed(path) => WireError::Io {
                code: "IO004"@,
                message: "Failed to create directory"@,
                path: Some(path@),
                operation: None,
            },
            AppError::DirectoryReadFailed(path) => WireError::Io {
                code: "IO005"@,
                message: "Failed to read directory"@,
                path: Some(path@),
                operation: None,
            },
            AppError::CorruptedFile(_, _) | AppError::VerificationFailed(_)
            | AppError::AtomicSaveFailed(_, _) | AppError::TemporaryFileError(_)
            | AppError::InvalidVaultState(_) => WireError::Unknown {
                code: "UNKNOWN"@,
                message: self.message_view(),
                details: None,
            },
        }
    }

    /// Puts the error into the form for a user interface.
    pub fn to_serializable(&self) -> (wire: SerializableError)
        ensures
            wire@ == self.wire_form(),
    {
        match self {
            AppError::AuthError(err) => match err {
                AuthError::InvalidPassword => SerializableError::Auth {
                    code: String::from_str("AUTH001"),
                    message: String::from_str("Invalid or incorrect master password"),
                    details: None,
                },
                AuthError::VaultLocked => SerializableError::Auth {
                    code: String::from_str("AUTH002"),
                    message: String::from_str("Vault is locked; unlock it before proceeding"),
                    details: None,
                },
                AuthError::VaultUnlocked => SerializableError::Auth {
                    code: String::from_str("AUTH003"),
                    message: String::from_str("Vault is already unlocked"),
                    details: None,
                },
                AuthError::KeyDerivationError(detail) => SerializableError::Auth {
                    code: String::from_str("AUTH004"),
                    message: String::from_str("Key derivation failed"),
                    details: Some(detail.clone()),
                },
                AuthError::OperationError(detail) => SerializableError::Auth {
                    code: String::from_str("AUTH005"),
                    message: String::from_str("Operation failed"),
                    details: Some(detail.clone()),
                },
                AuthError::CryptoError(_) | AuthError::PasswordMismatch => SerializableError::Auth {
                    code: String::from_str("AUTH999"),
                    message: err.message(),
                    details: None,
                },
            },
            AppError::CryptoError(err) => match err {
                CryptoError::KeyDerivationFailed => SerializableError::Crypto {
                    code: String::from_str("CRYPTO001"),
                    message: String::from_str("Key derivation operation failed"),
                    details: None,
                },
                CryptoError::InvalidKeyLength => SerializableError::Crypto {
                    code: String::from_str("CRYPTO002"),
                    message: String::from_str("Invalid key length specified"),
                    details: None,
                },
                CryptoError::EmptyPassword => SerializableError::Crypto {
                    code: String::from_str("CRYPTO003"),
                    message: String::from_str("Password cannot be empty"),
                    details: None,
                },
                CryptoError::InvalidParameters => SerializableError::Crypto {
                    code: String::from_str("CRYPTO004"),
                    message: String::from_str("Invalid parameters provided for operation"),
                    details: None,
                },
                CryptoError::SaltGenerationFailed | CryptoError::InvalidSaltLength
                | CryptoError::InsufficientMemory | CryptoError::InvalidMemoryCost
                | CryptoError::InvalidTimeCost | CryptoError::InvalidParallelism
                | CryptoError::InvalidContextLength | CryptoError::InvalidPasswordLength
                | CryptoError::InvalidCiphertext | CryptoError::InvalidNonceLength
                | CryptoError::InvalidTagLength | CryptoError::MasterKeyDerivationFailed
                | CryptoError::MekGenerationFailed | CryptoError::MekEncryptionFailed
                | CryptoError::MekDecryptionFailed | CryptoError::InvalidMasterPassword
                | CryptoError::EmptyData | CryptoError::EncryptionFailed
                | CryptoError::DecryptionFailed | CryptoError::InvalidKey
                | CryptoError::IoError(_) | CryptoError::Argon2Error(_) => SerializableError::Crypto {
                    code: String::from_str("CRYPTO999"),
                    message: err.message(),
                    details: None,
                },
            },
            AppError::CategoryError(err) => match err {
                CategoryError::InvalidName(name) => SerializableError::Category {
                    code: String::from_str("CAT001"),
                    message: String::from_str("Invalid category name"),
                    category_id: None,
                    category_name: Some(name.clone()),
                },
                CategoryError::DuplicateName(name) => SerializableError::Category {
                    code: String::from_str("CAT002"),
                    message: String::from_str("Category with this name already exists"),
                    category_id: None,
                    category_name: Some(name.clone()),
                },
                CategoryError::NotFound(id) => SerializableError::Category {
                    code: String::from_str("CAT003"),
                    message: String::from_str("Category not found"),
                    category_id: Some(uuid_to_text(*id)),
                    category_name: None,
                },
                CategoryError::NotFoundByName(name) => SerializableError::Category {
                    code: String::from_str("CAT004"),
                    message: String::from_str("Category not found"),
                    category_id: None,
                    category_name: Some(name.clone()),
                },
                CategoryError::ValidationError(_) => SerializableError::Category {
                    code: String::from_str("CAT999"),
                    message: err.message(),
                    category_id: None,
                    category_name: None,
                },
            },
            AppError::EntryError(err) => match err {
                EntryError::InvalidPassword => SerializableError::Entry {
                    code: String::from_str("ENTRY001"),
                    message: String::from_str("Invalid password: cannot be empty"),
                    entry_id: None,
                    field_name: Some(String::from_str("password")),
                },
                EntryError::InvalidTitle => SerializableError::Entry {
                    code: String::from_str("ENTRY002"),
                    message: String::from_str("Invalid title: cannot be empty"),
                    entry_id: None,
                    field_name: Some(String::from_str("title")),
                },
                EntryError::NotFound(id) => SerializableError::Entry {
                    code: String::from_str("ENTRY003"),
                    message: String::from_str("Entry not found"),
                    entry_id: Some(uuid_to_text(*id)),
                    field_name: None,
                },
                EntryError::EncryptionError(_) | EntryError::DecryptionError(_)
                | EntryError::CategoryError(_) | EntryError::InvalidUrl
                | EntryError::InvalidLength(_) | EntryError::DuplicateEntry
                | EntryError::ValidationError(_) => SerializableError::Entry {
                    code: String::from_str("ENTRY999"),
                    message: err.message(),
                    entry_id: None,
                    field_name: None,
                },
            },
            AppError::IoError(detail) => SerializableError::Io {
                code: String::from_str("IO001"),
                message: String::from_str("IO operation failed"),
                path: None,
                operation: Some(detail.clone()),
            },
            AppError::PathNotFound(path) => SerializableError::Io {
                code: String::from_str("IO002"),
                message: String::from_str("Path not found"),
                path: Some(path.clone()),
                operation: None,
            },
            AppError::PasswordGenerationError(err) => SerializableError::PasswordGeneration {
                code: String::from_str("PWD001"),
                message: String::from_str("Password generation failed"),
                length: reported_length_of(err),
                details: Some(err.message()),
            },
            AppError::PasswordTooShort => SerializableError::PasswordGeneration {
                code: String::from_str("PWD002"),
                message: String::from_str("Password is too short"),
                length: None,
                details: None,
            },
            AppError::PasswordTooLong => SerializableError::PasswordGeneration {
                code: String::from_str("PWD003"),
                message: String::from_str("Password is too long"),
                length: None,
                details: None,
            },
            AppError::PasswordTooWeak => SerializableError::PasswordGeneration {
                code: String::from_str("PWD004"),
                message: String::from_str("Password does not meet strength requirements"),
                length: None,
                details: None,
            },
            AppError::PasswordsDoNotMatch => SerializableError::Validation {
                code: String::from_str("VAL001"),
                message: String::from_str("Passwords do not match"),
                field: Some(String::from_str("password")),
                reason: None,
            },
            AppError::VaultError(err) => match err {
                VaultError::SettingsOutOfSync => SerializableError::Vault {
                    code: String::from_str("VAULT006"),
                    message: String::from_str("Settings are out of sync between components"),
                    path: None,
                    details: None,
                },
                VaultError::VaultLocked | VaultError::VaultAlreadyUnlocked
                | VaultError::VaultNotInitialized | VaultError::VaultAlreadyExists
                | VaultError::VaultNotFound | VaultError::AuthError(_)
                | VaultError::EntryError(_) | VaultError::CryptoError(_)
                | VaultError::PasswordGenerationError(_) | VaultError::AppError(_)
                | VaultError::InvalidVaultPath | VaultError::IoError(_)
                | VaultError::InvalidKeyDerivationSettings
                | VaultError::InvalidPasswordGeneratorSettings | VaultError::AutoLockError(_)
                | VaultError::BackupError(_) | VaultError::ValidationError(_)
                | VaultError::InvalidPassword | VaultError::SerializationError(_) => SerializableError::Vault {
                    code: String::from_str("VAULT001"),
                    message: String::from_str("Vault operation failed"),
                    path: None,
                    details: Some(err.message()),
                },
            },
            AppError::VaultLocked => SerializableError::Vault {
                code: String::from_str("VAULT002"),
                message: String::from_str("Vault is locked"),
                path: None,
                details: None,
            },
            AppError::VaultNotInitialized => SerializableError::Vault {
                code: String::from_str("VAULT003"),
                message: String::from_str("Vault is not initialized"),
                path: None,
                details: None,
            },
            AppError::VaultAlreadyExists => SerializableError::Vault {
                code: String::from_str("VAULT004"),
                message: String::from_str("Vault already exists"),
                path: None,
                details: None,
            },
            AppError::VaultNotFound => SerializableError::Vault {
                code: String::from_str("VAULT005"),
                message: String::from_str("Vault not found"),
                path: None,
                details: None,
            },
            AppError::DataCorruption(detail) => SerializableError::Data {
                code: String::from_str("DATA001"),
                message: String::from_str("Data corruption detected"),
                details: Some(detail.clone()),
            },
            AppError::SerializationFailed(detail) => SerializableError::Data {
                code: String::from_str("DATA002"),
                message: String::from_str("Failed to serialize data"),
                details: Some(detail.clone()),
            },
            AppError::DeserializationFailed(detail) => SerializableError::Data {
                code: String::from_str("DATA003"),
                message: String::from_str("Failed to deserialize data"),
                details: Some(detail.clone()),
            },
            AppError::BackupCreationFailed(path, detail) => SerializableError::Vault {
                code: String::from_str("BACKUP001"),
                message: String::from_str("Failed to create backup"),
                path: Some(path.clone()),
                details: Some(detail.clone()),
            },
            AppError::BackupRestoreFailed(path, detail) => SerializableError::Vault {
                code: String::from_str("BACKUP002"),
                message: String::from_str("Failed to restore backup"),
                path: Some(path.clone()),
                details: Some(detail.clone()),
            },
            AppError::BackupDeletionFailed => SerializableError::Vault {
                code: String::from_str("BACKUP003"),
                message: String::from_str("Failed to delete backup files"),
                path: None,
                details: None,
            },
            AppError::InsufficientPermissions(path) => SerializableError::Io {
                code: String::from_str("IO003"),
                message: String::from_str("Insufficient permissions"),
                path: Some(path.clone()),
                operation: None,
            },
            AppError::DirectoryCreationFailed(path) => SerializableError::Io {
                code: String::from_str("IO004"),
                message: String::from_str("Failed to create directory"),
                path: Some(path.clone()),
                operation: None,
            },
            AppError::DirectoryReadFailed(path) => SerializableError::Io {
                code: String::from_str("IO005"),
                message: String::from_str("Failed to read directory"),
                path: Some(path.clone()),
                operation: None,
            },
            AppError::CorruptedFile(_, _) | AppError::VerificationFailed(_)
            | AppError::AtomicSaveFailed(_, _) | AppError::TemporaryFileError(_)
            | AppError::InvalidVaultState(_) => SerializableError::Unknown {
                code: String::from_str("UNKNOWN"),
                message: self.message(),
                details: None,
            },
        }
    }
}

impl From<PasswordGenerationError> for AppError {
    fn from(err: PasswordGenerationError) -> (out: AppError) {
        AppError::PasswordGenerationError(err)
    }
}

impl FromSpecImpl<PasswordGenerationError> for AppError {
    open spec fn obeys_from_spec() -> bool {
        true
    }

    open spec fn from_spec(err: PasswordGenerationError) -> AppError {
        AppError::PasswordGenerationError(err)
    }
}

impl From<AuthError> for AppError {
    fn from(err: AuthError) -> (out: AppError) {
        AppError::AuthError(err)
    }
}

impl FromSpecImpl<AuthError> for AppError {
    open spec fn obeys_from_spec() -> bool {
        true
    }

    open spec fn from_spec(err: AuthError) -> AppError {
        AppError::AuthError(err)
    }
}

impl From<EntryError> for AppError {
    fn from(err: EntryError) -> (out: AppError) {
        AppError::EntryError(err)
    }
}

impl FromSpecImpl<EntryError> for AppError {
    open spec fn obeys_from_spec() -> bool {
        true
    }

    open spec fn from_spec(err: EntryError) -> AppError {
        AppError::EntryError(err)
    }
}

impl From<CategoryError> for AppError {
    fn from(err: CategoryError) -> (out: AppError) {
        AppError::CategoryError(err)
    }
}

impl FromSpecImpl<CategoryError> for AppError {
    open spec fn obeys_from_spec() -> bool {
        true
    }

    open spec fn from_spec(err: CategoryError) -> AppError {
        AppError::CategoryError(err)
    }
}

impl From<CryptoError> for AppError {
    fn from(err: CryptoError) -> (out: AppError) {
        AppError::CryptoError(err)
    }
}

impl FromSpecImpl<CryptoError> for AppError {
    open spec fn obeys_from_spec() -> bool {
        true
    }

    open spec fn from_spec(err: CryptoError) -> AppError {
        AppError::CryptoError(err)
    }
}

impl From<VaultError> for AppError {
    fn from(err: VaultError) -> (out: AppError) {
        AppError::VaultError(err)
    }
}

impl FromSpecImpl<VaultError> for AppError {
    open spec fn obeys_from_spec() -> bool {
        true
    }

    open spec fn from_spec(err: VaultError) -> AppError {
        AppError::VaultError(err)
    }
}

} // verus!
