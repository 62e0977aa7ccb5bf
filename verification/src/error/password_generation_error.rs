//! Failures of the password generator.

use vstd::prelude::*;
use vstd::string::StringExecFns;
use crate::error::notation::decimal;
use crate::error::notation::decimal_text;

verus! {

/// Everything that can go wrong while configuring the generator or drawing
/// a password.
#[derive(Debug)]
pub enum PasswordGenerationError {
    /// The length asked for, under the smallest allowed.
    LengthTooShort(usize),
    /// The length asked for, over the largest allowed.
    LengthTooLong(usize),
    EmptyCharacterSet,
    /// The length that the minimums need, and the length asked for.
    ExcessiveMinimums(usize, usize),
    RandomGenerationFailed(String),
    NoValidCharacters,
    SystemError(String),
}

impl PasswordGenerationError {
    /// The text shown for this error.
    pub open spec fn message_view(self) -> Seq<char> {
        match self {
            PasswordGenerationError::LengthTooShort(length) => "Password length "@
                + decimal_text(length)
                + " is below minimum allowed length 5"@,
            PasswordGenerationError::LengthTooLong(length) => "Password length "@
                + decimal_text(length)
                + " exceeds maximum allowed length 256"@,
            PasswordGenerationError::EmptyCharacterSet =>
                "No character sets selected for password generation"@,
            PasswordGenerationError::ExcessiveMinimums(required, length) =>
                "Minimum requirements ("@
                + decimal_text(required)
                + ") exceed password length ("@
                + decimal_text(length)
                + ")"@,
            PasswordGenerationError::RandomGenerationFailed(detail) =>
                "Failed to generate random character: "@
                + detail@,
            PasswordGenerationError::NoValidCharacters =>
                "No valid characters available with current configuration"@,
            PasswordGenerationError::SystemError(detail) =>
                "System error during password generation: "@
                + detail@,
        }
    }

    /// Renders the error as text.
    pub fn message(&self) -> (text: String)
        ensures
            text@ == self.message_view(),
    {
        match self {
            PasswordGenerationError::LengthTooShort(length) => {
                let mut text = String::from_str("Password length ");
                text.append(decimal(*length).as_str());
                text.append(" is below minimum allowed length 5");
                text
            },
            PasswordGenerationError::LengthTooLong(length) => {
                let mut text = String::from_str("Password length ");
                text.append(decimal(*length).as_str());
                text.append(" exceeds maximum allowed length 256");
                text
            },
            PasswordGenerationError::EmptyCharacterSet => String::from_str(
                "No character sets selected for password generation",
            ),
            PasswordGenerationError::ExcessiveMinimums(required, length) => {
                let mut text = String::from_str("Minimum requirements (");
                text.append(decimal(*required).as_str());
                text.append(") exceed password length (");
                text.append(decimal(*length).as_str());
                text.append(")");
                text
            },
            PasswordGenerationError::RandomGenerationFailed(detail) => {
                let mut text = String::from_str("Failed to generate random character: ");
                text.append(detail.as_str());
                text
            },
            PasswordGenerationError::NoValidCharacters => String::from_str(
                "No valid characters available with current configuration",
            ),
            PasswordGenerationError::SystemError(detail) => {
                let mut text = String::from_str("System error during password generation: ");
                text.append(detail.as_str());
                text
            },
        }
    }
}

} // verus!
