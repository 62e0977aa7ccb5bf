use password_manager_backend::error::app_error::AppError;
use password_manager_backend::error::auth_error::AuthError;
use password_manager_backend::error::category_error::CategoryError;
use password_manager_backend::error::crypto_error::CryptoError;
use password_manager_backend::error::entry_error::EntryError;
use password_manager_backend::error::password_generation_error::PasswordGenerationError;
use password_manager_backend::error::serializable_error::SerializableError;
use password_manager_backend::error::vault_error::VaultError;

const ID: u128 = 0x0123_4567_89ab_cdef_fedc_ba98_7654_3210;
const ID_TEXT: &str = "01234567-89ab-cdef-fedc-ba9876543210";

fn s(text: &str) -> String {
    text.to_string()
}

fn shown_length(length: usize) -> String {
    PasswordGenerationError::LengthTooLong(length)
        .message()
        .replace("Password length ", "")
        .replace(" exceeds maximum allowed length 256", "")
}

fn shown_id(id: u128) -> String {
    EntryError::NotFound(id).message().replace("Entry not found with ID: ", "")
}

#[test]
fn numbers_in_decimal() {
    assert_eq!(shown_length(0), "0");
    assert_eq!(shown_length(7), "7");
    assert_eq!(shown_length(10), "10");
    assert_eq!(shown_length(256), "256");
    assert_eq!(shown_length(1_000_000), "1000000");
    assert_eq!(shown_length(usize::MAX), usize::MAX.to_string());
}

#[test]
fn identifiers_written_out() {
    assert_eq!(shown_id(ID), ID_TEXT);
    assert_eq!(shown_id(0), "00000000-0000-0000-0000-000000000000");
    assert_eq!(shown_id(u128::MAX), "ffffffff-ffff-ffff-ffff-ffffffffffff");
    assert_eq!(shown_id(0xa), "00000000-0000-0000-0000-00000000000a");
    assert_eq!(shown_id(1u128 << 124), "10000000-0000-0000-0000-000000000000");
}

#[test]
fn texts_of_the_other_errors() {
    assert_eq!(AuthError::CryptoError(s("x")).message(), "Cryptographic error: x");
    assert_eq!(AuthError::InvalidPassword.message(), "Invalid or incorrect master password");
    assert_eq!(
        AuthError::PasswordMismatch.message(),
        "New password and confirmation do not match"
    );
    assert_eq!(AuthError::VaultLocked.message(), "Vault is locked; unlock it before proceeding");
    assert_eq!(AuthError::VaultUnlocked.message(), "Vault is already unlocked");
    assert_eq!(AuthError::KeyDerivationError(s("x")).message(), "Key derivation error: x");
    assert_eq!(AuthError::OperationError(s("x")).message(), "Operation error: x");

    assert_eq!(CategoryError::InvalidName(s("n")).message(), "Invalid category name: 'n'");
    assert_eq!(
        CategoryError::DuplicateName(s("n")).message(),
        "Category with name 'n' already exists"
    );
    assert_eq!(
        CategoryError::NotFound(ID).message(),
        format!("Category not found with ID: {}", ID_TEXT)
    );
    assert_eq!(
        CategoryError::NotFoundByName(s("n")).message(),
        "Category not found with name: 'n'"
    );
    assert_eq!(CategoryError::ValidationError(s("v")).message(), "Validation error: v");

    assert_eq!(
        EntryError::EncryptionError(CryptoError::EmptyData).message(),
        "Encryption error: Cannot encrypt empty data"
    );
    assert_eq!(
        EntryError::DecryptionError(CryptoError::DecryptionFailed).message(),
        "Decryption error: Decryption operation failed"
    );
    assert_eq!(
        EntryError::CategoryError(CategoryError::InvalidName(s("n"))).message(),
        "Invalid category name: 'n'"
    );
    assert_eq!(EntryError::InvalidPassword.message(), "Invalid password: cannot be empty");
    assert_eq!(EntryError::InvalidTitle.message(), "Invalid title: cannot be empty");
    assert_eq!(EntryError::InvalidUrl.message(), "Invalid URL format");
    assert_eq!(EntryError::InvalidLength(s("Title")).message(), "Title exceeds maximum length");
    assert_eq!(
        EntryError::NotFound(ID).message(),
        format!("Entry not found with ID: {}", ID_TEXT)
    );
    assert_eq!(EntryError::DuplicateEntry.message(), "Entry with this title already exists");
    assert_eq!(EntryError::ValidationError(s("v")).message(), "Validation error: v");

    assert_eq!(
        PasswordGenerationError::LengthTooShort(3).message(),
        "Password length 3 is below minimum allowed length 5"
    );
    assert_eq!(
        PasswordGenerationError::LengthTooLong(300).message(),
        "Password length 300 exceeds maximum allowed length 256"
    );
    assert_eq!(
        PasswordGenerationError::EmptyCharacterSet.message(),
        "No character sets selected for password generation"
    );
    assert_eq!(
        PasswordGenerationError::ExcessiveMinimums(22, 16).message(),
        "Minimum requirements (22) exceed password length (16)"
    );
    assert_eq!(
        PasswordGenerationError::RandomGenerationFailed(s("r")).message(),
        "Failed to generate random character: r"
    );
    assert_eq!(
        PasswordGenerationError::NoValidCharacters.message(),
        "No valid characters available with current configuration"
    );
    assert_eq!(
        PasswordGenerationError::SystemError(s("e")).message(),
        "System error during password generation: e"
    );
}

#[test]
fn texts_of_vault_errors() {
    let cases: Vec<(VaultError, &str)> = vec![
        (VaultError::VaultLocked, "Operation failed: vault is locked"),
        (VaultError::VaultAlreadyUnlocked, "Vault is already unlocked"),
        (VaultError::VaultNotInitialized, "Vault is not initialized"),
        (VaultError::VaultAlreadyExists, "Vault already exists at specified path"),
        (VaultError::VaultNotFound, "Vault not found at specified path"),
        (
            VaultError::AuthError(AuthError::InvalidPassword),
            "Authentication error: Invalid or incorrect master password",
        ),
        (
            VaultError::EntryError(EntryError::InvalidUrl),
            "Entry error: Invalid URL format",
        ),
        (
            VaultError::CryptoError(CryptoError::InvalidKey),
            "Cryptographic error: Invalid or corrupted key",
        ),
        (
            VaultError::PasswordGenerationError(PasswordGenerationError::NoValidCharacters),
            "Password generation error: No valid characters available with current configuration",
        ),
        (VaultError::AppError(s("a")), "Storage error: a"),
        (VaultError::InvalidVaultPath, "Invalid vault path specified"),
        (VaultError::IoError(s("i")), "IO error: i"),
        (VaultError::InvalidKeyDerivationSettings, "Invalid key derivation settings"),
        (VaultError::InvalidPasswordGeneratorSettings, "Invalid password generator settings"),
        (VaultError::SettingsOutOfSync, "Settings are out of sync between components"),
        (VaultError::AutoLockError(s("l")), "Auto-lock error: l"),
        (VaultError::BackupError(s("b")), "Backup error: b"),
        (VaultError::ValidationError(s("v")), "Validation error: v"),
        (VaultError::InvalidPassword, "Invalid password"),
        (VaultError::SerializationError(s("c")), "CBOR serialization error: c"),
    ];
    for (error, text) in cases {
        assert_eq!(error.message(), text);
    }
}

#[test]
fn texts_of_app_errors() {
    let cases: Vec<(AppError, &str)> = vec![
        (AppError::IoError(s("i")), "IO error: i"),
        (AppError::PathNotFound(s("/p")), "Path not found: /p"),
        (AppError::InsufficientPermissions(s("/p")), "Insufficient permissions for path: /p"),
        (AppError::DirectoryCreationFailed(s("/p")), "Failed to create directory: /p"),
        (AppError::DirectoryReadFailed(s("/p")), "Failed to read directory: /p"),
        (AppError::DataCorruption(s("d")), "Data corruption: d"),
        (AppError::PasswordsDoNotMatch, "Passwords do not match"),
        (AppError::PasswordTooShort, "Password is too short"),
        (AppError::PasswordTooLong, "Password is too long"),
        (AppError::PasswordTooWeak, "Password is too weak"),
        (
            AppError::PasswordGenerationError(PasswordGenerationError::EmptyCharacterSet),
            "Password generation error: No character sets selected for password generation",
        ),
        (
            AppError::AuthError(AuthError::VaultLocked),
            "Authentication error: Vault is locked; unlock it before proceeding",
        ),
        (AppError::CorruptedFile(s("/p"), s("d")), "Corrupted vault file at /p: d"),
        (AppError::VerificationFailed(s("d")), "Verification failed: d"),
        (AppError::SerializationFailed(s("d")), "Failed to serialize vault data: d"),
        (AppError::DeserializationFailed(s("d")), "Failed to deserialize vault data: d"),
        (AppError::BackupCreationFailed(s("/p"), s("d")), "Failed to create backup at /p: d"),
        (AppError::BackupRestoreFailed(s("/p"), s("d")), "Failed to restore from backup /p: d"),
        (AppError::BackupDeletionFailed, "Failed to delete backup files"),
        (
            AppError::AtomicSaveFailed(s("/p"), s("d")),
            "Atomic save failed for temporary file /p: d",
        ),
        (AppError::TemporaryFileError(s("d")), "Temporary file error: d"),
        (AppError::VaultLocked, "Cannot perform operation: vault is locked"),
        (AppError::VaultNotInitialized, "Vault is not initialized"),
        (AppError::InvalidVaultState(s("d")), "Invalid vault state: d"),
        (AppError::VaultAlreadyExists, "Vault already exists"),
        (AppError::VaultNotFound, "Vault not found"),
        (AppError::EntryError(EntryError::InvalidTitle), "Invalid title: cannot be empty"),
        (
            AppError::CategoryError(CategoryError::ValidationError(s("v"))),
            "Validation error: v",
        ),
        (AppError::CryptoError(CryptoError::EmptyData), "Cannot encrypt empty data"),
        (AppError::VaultError(VaultError::InvalidPassword), "Invalid password"),
    ];
    for (error, text) in cases {
        assert_eq!(error.message(), text);
    }
}

/// The parts of a wire error, flattened for comparison: kind, code, message,
/// the two optional texts in the order of the variant's fields, and the
/// length.
fn flat(
    wire: SerializableError,
) -> (&'static str, String, String, Option<String>, Option<String>, Option<usize>) {
    match wire {
        SerializableError::Auth { code, message, details } => {
            ("auth", code, message, details, None, None)
        }
        SerializableError::Crypto { code, message, details } => {
            ("crypto", code, message, details, None, None)
        }
        SerializableError::Category { code, message, category_id, category_name } => {
            ("category", code, message, category_id, category_name, None)
        }
        SerializableError::Entry { code, message, entry_id, field_name } => {
            ("entry", code, message, entry_id, field_name, None)
        }
        SerializableError::PasswordGeneration { code, message, length, details } => {
            ("passwordGeneration", code, message, details, None, length)
        }
        SerializableError::Vault { code, message, path, details } => {
            ("vault", code, message, path, details, None)
        }
        SerializableError::Io { code, message, path, operation } => {
            ("io", code, message, path, operation, None)
        }
        SerializableError::Data { code, message, details } => {
            ("data", code, message, details, None, None)
        }
        SerializableError::Validation { code, message, field, reason } => {
            ("validation", code, message, field, reason, None)
        }
        SerializableError::Unknown { code, message, details } => {
            ("unknown", code, message, details, None, None)
        }
    }
}

fn check(
    error: AppError,
    kind: &'static str,
    code: &str,
    message: &str,
    first: Option<&str>,
    second: Option<&str>,
    length: Option<usize>,
) {
    let expected =
        (kind, s(code), s(message), first.map(s), second.map(s), length);
    assert_eq!(flat(error.to_serializable()), expected);
}

#[test]
fn wire_form_of_auth_errors() {
    let a = |e| AppError::AuthError(e);
    check(a(AuthError::InvalidPassword), "auth", "AUTH001", "Invalid or incorrect master password", None, None, None);
    check(a(AuthError::VaultLocked), "auth", "AUTH002", "Vault is locked; unlock it before proceeding", None, None, None);
    check(a(AuthError::VaultUnlocked), "auth", "AUTH003", "Vault is already unlocked", None, None, None);
    check(a(AuthError::KeyDerivationError(s("d"))), "auth", "AUTH004", "Key derivation failed", Some("d"), None, None);
    check(a(AuthError::OperationError(s("d"))), "auth", "AUTH005", "Operation failed", Some("d"), None, None);
    check(a(AuthError::PasswordMismatch), "auth", "AUTH999", "New password and confirmation do not match", None, None, None);
    check(a(AuthError::CryptoError(s("x"))), "auth", "AUTH999", "Cryptographic error: x", None, None, None);
}

#[test]
fn wire_form_of_crypto_errors() {
    let c = |e| AppError::CryptoError(e);
    check(c(CryptoError::KeyDerivationFailed), "crypto", "CRYPTO001", "Key derivation operation failed", None, None, None);
    check(c(CryptoError::InvalidKeyLength), "crypto", "CRYPTO002", "Invalid key length specified", None, None, None);
    check(c(CryptoError::EmptyPassword), "crypto", "CRYPTO003", "Password cannot be empty", None, None, None);
    check(c(CryptoError::InvalidParameters), "crypto", "CRYPTO004", "Invalid parameters provided for operation", None, None, None);
    check(c(CryptoError::DecryptionFailed), "crypto", "CRYPTO999", "Decryption operation failed", None, None, None);
    check(c(CryptoError::Argon2Error(s("too many threads"))), "crypto", "CRYPTO999", "Argon2 error: too many threads", None, None, None);
}

#[test]
fn wire_form_of_category_and_entry_errors() {
    let c = |e| AppError::CategoryError(e);
    check(c(CategoryError::InvalidName(s("n"))), "category", "CAT001", "Invalid category name", None, Some("n"), None);
    check(c(CategoryError::DuplicateName(s("n"))), "category", "CAT002", "Category with this name already exists", None, Some("n"), None);
    check(c(CategoryError::NotFound(ID)), "category", "CAT003", "Category not found", Some(ID_TEXT), None, None);
    check(c(CategoryError::NotFoundByName(s("n"))), "category", "CAT004", "Category not found", None, Some("n"), None);
    check(c(CategoryError::ValidationError(s("v"))), "category", "CAT999", "Validation error: v", None, None, None);

    let e = |e| AppError::EntryError(e);
    check(e(EntryError::InvalidPassword), "entry", "ENTRY001", "Invalid password: cannot be empty", None, Some("password"), None);
    check(e(EntryError::InvalidTitle), "entry", "ENTRY002", "Invalid title: cannot be empty", None, Some("title"), None);
    check(e(EntryError::NotFound(ID)), "entry", "ENTRY003", "Entry not found", Some(ID_TEXT), None, None);
    check(e(EntryError::InvalidUrl), "entry", "ENTRY999", "Invalid URL format", None, None, None);
    check(e(EntryError::DecryptionError(CryptoError::DecryptionFailed)), "entry", "ENTRY999", "Decryption error: Decryption operation failed", None, None, None);
}

#[test]
fn wire_form_of_password_errors() {
    let g = |e| AppError::PasswordGenerationError(e);
    check(g(PasswordGenerationError::LengthTooShort(3)), "passwordGeneration", "PWD001", "Password generation failed", Some("Password length 3 is below minimum allowed length 5"), None, Some(3));
    check(g(PasswordGenerationError::LengthTooLong(300)), "passwordGeneration", "PWD001", "Password generation failed", Some("Password length 300 exceeds maximum allowed length 256"), None, Some(300));
    check(g(PasswordGenerationError::ExcessiveMinimums(22, 16)), "passwordGeneration", "PWD001", "Password generation failed", Some("Minimum requirements (22) exceed password length (16)"), None, Some(16));
    check(g(PasswordGenerationError::EmptyCharacterSet), "passwordGeneration", "PWD001", "Password generation failed", Some("No character sets selected for password generation"), None, None);
    check(AppError::PasswordTooShort, "passwordGeneration", "PWD002", "Password is too short", None, None, None);
    check(AppError::PasswordTooLong, "passwordGeneration", "PWD003", "Password is too long", None, None, None);
    check(AppError::PasswordTooWeak, "passwordGeneration", "PWD004", "Password does not meet strength requirements", None, None, None);
    check(AppError::PasswordsDoNotMatch, "validation", "VAL001", "Passwords do not match", Some("password"), None, None);
}

#[test]
fn wire_form_of_vault_and_file_errors() {
    check(AppError::VaultError(VaultError::SettingsOutOfSync), "vault", "VAULT006", "Settings are out of sync between components", None, None, None);
    check(AppError::VaultError(VaultError::VaultLocked), "vault", "VAULT001", "Vault operation failed", None, Some("Operation failed: vault is locked"), None);
    check(AppError::VaultLocked, "vault", "VAULT002", "Vault is locked", None, None, None);
    check(AppError::VaultNotInitialized, "vault", "VAULT003", "Vault is not initialized", None, None, None);
    check(AppError::VaultAlreadyExists, "vault", "VAULT004", "Vault already exists", None, None, None);
    check(AppError::VaultNotFound, "vault", "VAULT005", "Vault not found", None, None, None);
    check(AppError::BackupCreationFailed(s("/p"), s("d")), "vault", "BACKUP001", "Failed to create backup", Some("/p"), Some("d"), None);
    check(AppError::BackupRestoreFailed(s("/p"), s("d")), "vault", "BACKUP002", "Failed to restore backup", Some("/p"), Some("d"), None);
    check(AppError::BackupDeletionFailed, "vault", "BACKUP003", "Failed to delete backup files", None, None, None);

    check(AppError::IoError(s("d")), "io", "IO001", "IO operation failed", None, Some("d"), None);
    check(AppError::PathNotFound(s("/p")), "io", "IO002", "Path not found", Some("/p"), None, None);
    check(AppError::InsufficientPermissions(s("/p")), "io", "IO003", "Insufficient permissions", Some("/p"), None, None);
    check(AppError::DirectoryCreationFailed(s("/p")), "io", "IO004", "Failed to create directory", Some("/p"), None, None);
    check(AppError::DirectoryReadFailed(s("/p")), "io", "IO005", "Failed to read directory", Some("/p"), None, None);

    check(AppError::DataCorruption(s("d")), "data", "DATA001", "Data corruption detected", Some("d"), None, None);
    check(AppError::SerializationFailed(s("d")), "data", "DATA002", "Failed to serialize data", Some("d"), None, None);
    check(AppError::DeserializationFailed(s("d")), "data", "DATA003", "Failed to deserialize data", Some("d"), None, None);
}

#[test]
fn wire_form_of_errors_without_a_code() {
    check(AppError::CorruptedFile(s("/p"), s("d")), "unknown", "UNKNOWN", "Corrupted vault file at /p: d", None, None, None);
    check(AppError::VerificationFailed(s("d")), "unknown", "UNKNOWN", "Verification failed: d", None, None, None);
    check(AppError::AtomicSaveFailed(s("/p"), s("d")), "unknown", "UNKNOWN", "Atomic save failed for temporary file /p: d", None, None, None);
    check(AppError::TemporaryFileError(s("d")), "unknown", "UNKNOWN", "Temporary file error: d", None, None, None);
    check(AppError::InvalidVaultState(s("d")), "unknown", "UNKNOWN", "Invalid vault state: d", None, None, None);
}
