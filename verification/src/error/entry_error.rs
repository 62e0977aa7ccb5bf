//! Failures of entry management.

use vstd::prelude::*;
use vstd::std_specs::convert::FromSpecImpl;
use vstd::string::StringExecFns;
use crate::error::category_error::CategoryError;
use crate::error::crypto_error::CryptoError;
use crate::error::notation::uuid_text;
use crate::error::notation::uuid_to_text;

verus! {

/// Everything that can go wrong with an entry. An entry is named by the
/// 128-bit number of its identifier.
#[derive(Debug)]
pub enum EntryError {
    /// Sealing a field failed.
    EncryptionError(CryptoError),
    /// Opening a field failed: wrong key or damaged record.
    DecryptionError(CryptoError),
    CategoryError(CategoryError),
    InvalidPassword,
    InvalidTitle,
    InvalidUrl,
    /// The named field is too long.
    InvalidLength(String),
    NotFound(u128),
    DuplicateEntry,
    ValidationError(String),
}

impl EntryError {
    /// The text shown for this error.
    pub open spec fn message_view(self) -> Seq<char> {
        match self {
            EntryError::EncryptionError(err) => "Encryption error: "@ + err.message_view(),
            EntryError::DecryptionError(err) => "Decryption error: "@ + err.message_view(),
            EntryError::CategoryError(err) => err.message_view(),
            EntryError::InvalidPassword => "Invalid password: cannot be empty"@,
            EntryError::InvalidTitle => "Invalid title: cannot be empty"@,
            EntryError::InvalidUrl => "Invalid URL format"@,
            EntryError::InvalidLength(field) => field@ + " exceeds maximum length"@,
            EntryError::NotFound(id) => "Entry not found with ID: "@ + uuid_text(id),
            EntryError::DuplicateEntry => "Entry with this title already exists"@,
            EntryError::ValidationError(detail) => "Validation error: "@ + detail@,
        }
    }

    /// Renders the error as text.
    pub fn message(&self) -> (text: String)
        ensures
            text@ == self.message_view(),
    {
        match self {
            EntryError::EncryptionError(err) => {
                let mut text = String::from_str("Encryption error: ");
                text.append(err.message().as_str());
                text
            },
            EntryError::DecryptionError(err) => {
                let mut text = String::from_str("Decryption error: ");
                text.append(err.message().as_str());
                text
            },
            EntryError::CategoryError(err) => err.message(),
            EntryError::InvalidPassword => String::from_str("Invalid password: cannot be empty"),
            EntryError::InvalidTitle => String::from_str("Invalid title: cannot be empty"),
            EntryError::InvalidUrl => String::from_str("Invalid URL format"),
            EntryError::InvalidLength(field) => {
                let mut text = field.clone();
                text.append(" exceeds maximum length");
                text
            },
            EntryError::NotFound(id) => {
                let mut text = String::from_str("Entry not found with ID: ");
                text.append(uuid_to_text(*id).as_str());
                text
            },
            EntryError::DuplicateEntry => String::from_str("Entry with this title already exists"),
            EntryError::ValidationError(detail) => {
                let mut text = String::from_str("Validation error: ");
                text.append(detail.as_str());
                text
            },
        }
    }
}

impl From<CryptoError> for EntryError {
    fn from(err: CryptoError) -> (out: EntryError) {
        EntryError::EncryptionError(err)
    }
}

impl FromSpecImpl<CryptoError> for EntryError {
    open spec fn obeys_from_spec() -> bool {
        true
    }

    open spec fn from_spec(err: CryptoError) -> EntryError {
        EntryError::EncryptionError(err)
    }
}

impl From<CategoryError> for EntryError {
    fn from(err: CategoryError) -> (out: EntryError) {
        EntryError::CategoryError(err)
    }
}

impl FromSpecImpl<CategoryError> for EntryError {
    open spec fn obeys_from_spec() -> bool {
        true
    }

    open spec fn from_spec(err: CategoryError) -> EntryError {
        EntryError::CategoryError(err)
    }
}

} // verus!
