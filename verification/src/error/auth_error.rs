//! Failures of the authentication layer.

use vstd::prelude::*;
use vstd::std_specs::convert::FromSpecImpl;
use vstd::string::StringExecFns;
use crate::error::crypto_error::CryptoError;

verus! {

/// Everything that can go wrong while creating, unlocking or re-keying a vault.
#[derive(Debug)]
pub enum AuthError {
    /// A cryptographic step failed; the payload is that failure's text.
    CryptoError(String),
    InvalidPassword,
    PasswordMismatch,
    VaultLocked,
    VaultUnlocked,
    KeyDerivationError(String),
    OperationError(String),
}

/// Why an operation on the stored vault state fails, with the cryptographic
/// failure itself in place of its text.
pub enum AuthFailure {
    /// The password does not derive the stored hash.
    InvalidPassword,
    /// A cryptographic step failed.
    Crypto(CryptoError),
}

impl AuthError {
    /// Whether this error reports the failure `failure`.
    pub open spec fn reports(self, failure: AuthFailure) -> bool {
        match failure {
            AuthFailure::InvalidPassword => self is InvalidPassword,
            AuthFailure::Crypto(err) => self.carries(err),
        }
    }

    /// Whether this error reports the failure that `fault` names.
    pub open spec fn reports_fault(self, fault: Option<AuthFailure>) -> bool {
        match fault {
            Some(failure) => self.reports(failure),
            None => false,
        }
    }

    /// Wraps a cryptographic failure, keeping its text.
    pub fn from_crypto(err: CryptoError) -> (out: AuthError)
        ensures
            out.carries(err),
    {
        AuthError::CryptoError(err.message())
    }

    /// Whether this error is the wrapping of the cryptographic failure `err`.
    pub open spec fn carries(self, err: CryptoError) -> bool {
        self matches AuthError::CryptoError(text) && text@ == err.message_view()
    }
}

impl From<CryptoError> for AuthError {
    fn from(err: CryptoError) -> (out: AuthError) {
        AuthError::from_crypto(err)
    }
}

impl FromSpecImpl<CryptoError> for AuthError {
    open spec fn obeys_from_spec() -> bool {
        false
    }

    open spec fn from_spec(err: CryptoError) -> AuthError {
        arbitrary()
    }
}

impl AuthError {
    /// The text shown for this error.
    pub open spec fn message_view(self) -> Seq<char> {
        match self {
            AuthError::CryptoError(detail) => "Cryptographic error: "@ + detail@,
            AuthError::InvalidPassword => "Invalid or incorrect master password"@,
            AuthError::PasswordMismatch => "New password and confirmation do not match"@,
            AuthError::VaultLocked => "Vault is locked; unlock it before proceeding"@,
            AuthError::VaultUnlocked => "Vault is already unlocked"@,
            AuthError::KeyDerivationError(detail) => "Key derivation error: "@ + detail@,
            AuthError::OperationError(detail) => "Operation error: "@ + detail@,
        }
    }

    /// Renders the error as text.
    pub fn message(&self) -> (text: String)
        ensures
            text@ == self.message_view(),
    {
        match self {
            AuthError::CryptoError(detail) => {
                let mut text = String::from_str("Cryptographic error: ");
                text.append(detail.as_str());
                text
            },
            AuthError::InvalidPassword => String::from_str("Invalid or incorrect master password"),
            AuthError::PasswordMismatch => String::from_str(
                "New password and confirmation do not match",
            ),
            AuthError::VaultLocked => String::from_str(
                "Vault is locked; unlock it before proceeding",
            ),
            AuthError::VaultUnlocked => String::from_str("Vault is already unlocked"),
            AuthError::KeyDerivationError(detail) => {
                let mut text = String::from_str("Key derivation error: ");
                text.append(detail.as_str());
                text
            },
            AuthError::OperationError(detail) => {
                let mut text = String::from_str("Operation error: ");
                text.append(detail.as_str());
                text
            },
        }
    }
}

} // verus!
