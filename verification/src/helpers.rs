//! Rules for master passwords, and small values handed to the user
//! interface.

use vstd::prelude::*;
use vstd::utf8::encode_utf8;
use crate::crypto::key_hierarchy::constant_time_eq;
use crate::error::app_error::AppError;

verus! {

/// Shortest master password, in bytes.
pub const MIN_PASSWORD_LENGTH: usize = 8;

/// Longest master password, in bytes.
pub const MAX_PASSWORD_LENGTH: usize = 256;

/// Whether Unicode counts the character as an uppercase letter.
pub uninterp spec fn is_uppercase_char(c: char) -> bool;

/// Whether Unicode counts the character as a lowercase letter.
pub uninterp spec fn is_lowercase_char(c: char) -> bool;

/// Whether Unicode counts the character as a number.
pub uninterp spec fn is_numeric_char(c: char) -> bool;

/// Whether Unicode counts the character as a letter or a number.
pub uninterp spec fn is_alphanumeric_char(c: char) -> bool;

/// `char::is_uppercase`.
#[verifier::external_body]
fn is_uppercase(c: char) -> (verdict: bool)
    ensures
        verdict == is_uppercase_char(c),
{
    c.is_uppercase()
}

/// `char::is_lowercase`.
#[verifier::external_body]
fn is_lowercase(c: char) -> (verdict: bool)
    ensures
        verdict == is_lowercase_char(c),
{
    c.is_lowercase()
}

/// `char::is_numeric`.
#[verifier::external_body]
fn is_numeric(c: char) -> (verdict: bool)
    ensures
        verdict == is_numeric_char(c),
{
    c.is_numeric()
}

/// `char::is_alphanumeric`.
#[verifier::external_body]
fn is_alphanumeric(c: char) -> (verdict: bool)
    ensures
        verdict == is_alphanumeric_char(c),
{
    c.is_alphanumeric()
}

/// A password is complex when it has an uppercase letter, a lowercase
/// letter, a number, and a character that is neither letter nor number.
pub open spec fn is_complex(password: Seq<char>) -> bool {
    &&& exists|i: int| 0 <= i < password.len() && is_uppercase_char(#[trigger] password[i])
    &&& exists|i: int| 0 <= i < password.len() && is_lowercase_char(#[trigger] password[i])
    &&& exists|i: int| 0 <= i < password.len() && is_numeric_char(#[trigger] password[i])
    &&& exists|i: int| 0 <= i < password.len() && !is_alphanumeric_char(#[trigger] password[i])
}

/// Tells whether a password is complex.
pub fn check_password_complexity(password: &str) -> (complex: bool)
    ensures
        complex == is_complex(password@),
{
    let mut has_uppercase = false;
    let mut has_lowercase = false;
    let mut has_number = false;
    let mut has_special = false;
    let count = password.unicode_len();
    let mut i: usize = 0;
    while i < count
        invariant
            i <= count,
            count == password@.len(),
            has_uppercase == (exists|j: int| 0 <= j < i && is_uppercase_char(#[trigger] password@[j])),
            has_lowercase == (exists|j: int| 0 <= j < i && is_lowercase_char(#[trigger] password@[j])),
            has_number == (exists|j: int| 0 <= j < i && is_numeric_char(#[trigger] password@[j])),
            has_special == (exists|j: int|
                0 <= j < i && !is_alphanumeric_char(#[trigger] password@[j])),
        decreases count - i,
    {
        let c = password.get_char(i);
        has_uppercase = has_uppercase || is_uppercase(c);
        has_lowercase = has_lowercase || is_lowercase(c);
        has_number = has_number || is_numeric(c);
        has_special = has_special || !is_alphanumeric(c);
        i = i + 1;
    }
    has_uppercase && has_lowercase && has_number && has_special
}

/// Why a new master password is refused; `None` where it is accepted. The
/// confirmation is compared first, then the length in bytes is judged, then
/// the complexity.
pub open spec fn password_fault(password: Seq<char>, confirm_password: Seq<char>) -> Option<
    AppError,
> {
    if password != confirm_password {
        Some(AppError::PasswordsDoNotMatch)
    } else if encode_utf8(password).len() > MAX_PASSWORD_LENGTH {
        Some(AppError::PasswordTooLong)
    } else if encode_utf8(password).len() < MIN_PASSWORD_LENGTH {
        Some(AppError::PasswordTooShort)
    } else if !is_complex(password) {
        Some(AppError::PasswordTooWeak)
    } else {
        None
    }
}

/// Checks a new master password and its confirmation.
pub fn validate_password(password: &str, confirm_password: &str) -> (checked: Result<(), AppError>)
    ensures
        match checked {
            Ok(()) => password_fault(password@, confirm_password@) is None,
            Err(e) => password_fault(password@, confirm_password@) == Some(e),
        },
{
    proof {
        vstd::utf8::encode_utf8_decode_utf8(password@);
        vstd::utf8::encode_utf8_decode_utf8(confirm_password@);
    }
    if !constant_time_eq(password.as_bytes(), confirm_password.as_bytes()) {
        return Err(AppError::PasswordsDoNotMatch);
    }
    if password.as_bytes().len() > MAX_PASSWORD_LENGTH {
        return Err(AppError::PasswordTooLong);
    }
    if password.as_bytes().len() < MIN_PASSWORD_LENGTH {
        return Err(AppError::PasswordTooShort);
    }
    if !check_password_complexity(password) {
        return Err(AppError::PasswordTooWeak);
    }
    Ok(())
}

/// Where a vault keeps its files, as text for display.
#[derive(Debug)]
pub struct VaultPaths {
    pub vault_path: String,
    pub backup_dir: String,
    pub temp_dir: String,
}

} // verus!
