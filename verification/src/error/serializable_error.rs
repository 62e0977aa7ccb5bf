//! The form in which errors are handed to a user interface.

use vstd::prelude::*;

verus! {

/// An error as a user interface gets it: its kind, a stable code, a message,
/// and what else is known of it.
#[derive(Debug)]
pub enum SerializableError {
    Auth { code: String, message: String, details: Option<String> },
    Crypto { code: String, message: String, details: Option<String> },
    Category {
        code: String,
        message: String,
        category_id: Option<String>,
        category_name: Option<String>,
    },
    Entry { code: String, message: String, entry_id: Option<String>, field_name: Option<String> },
    PasswordGeneration {
        code: String,
        message: String,
        length: Option<usize>,
        details: Option<String>,
    },
    Vault { code: String, message: String, path: Option<String>, details: Option<String> },
    Io { code: String, message: String, path: Option<String>, operation: Option<String> },
    Data { code: String, message: String, details: Option<String> },
    Validation { code: String, message: String, field: Option<String>, reason: Option<String> },
    Unknown { code: String, message: String, details: Option<String> },
}

/// What a [`SerializableError`] holds, as plain values.
pub enum WireError {
    Auth { code: Seq<char>, message: Seq<char>, details: Option<Seq<char>> },
    Crypto { code: Seq<char>, message: Seq<char>, details: Option<Seq<char>> },
    Category {
        code: Seq<char>,
        message: Seq<char>,
        category_id: Option<Seq<char>>,
        category_name: Option<Seq<char>>,
    },
    Entry {
        code: Seq<char>,
        message: Seq<char>,
        entry_id: Option<Seq<char>>,
        field_name: Option<Seq<char>>,
    },
    PasswordGeneration {
        code: Seq<char>,
        message: Seq<char>,
        length: Option<usize>,
        details: Option<Seq<char>>,
    },
    Vault {
        code: Seq<char>,
        message: Seq<char>,
        path: Option<Seq<char>>,
        details: Option<Seq<char>>,
    },
    Io {
        code: Seq<char>,
        message: Seq<char>,
        path: Option<Seq<char>>,
        operation: Option<Seq<char>>,
    },
    Data { code: Seq<char>, message: Seq<char>, details: Option<Seq<char>> },
    Validation {
        code: Seq<char>,
        message: Seq<char>,
        field: Option<Seq<char>>,
        reason: Option<Seq<char>>,
    },
    Unknown { code: Seq<char>, message: Seq<char>, details: Option<Seq<char>> },
}

/// The view of an optional text.
pub open spec fn text_of(text: Option<String>) -> Option<Seq<char>> {
    match text {
        Some(t) => Some(t@),
        None => None,
    }
}

impl View for SerializableError {
    type V = WireError;

    open spec fn view(&self) -> WireError {
        match *self {
            SerializableError::Auth { code, message, details } => WireError::Auth {
                code: code@,
                message: message@,
                details: text_of(details),
            },
            SerializableError::Crypto { code, message, details } => WireError::Crypto {
                code: code@,
                message: message@,
                details: text_of(details),
            },
            SerializableError::Category {
                code,
                message,
                category_id,
                category_name,
            } => WireError::Category {
                code: code@,
                message: message@,
                category_id: text_of(category_id),
                category_name: text_of(category_name),
            },
            SerializableError::Entry { code, message, entry_id, field_name } => WireError::Entry {
                code: code@,
                message: message@,
                entry_id: text_of(entry_id),
                field_name: text_of(field_name),
            },
            SerializableError::PasswordGeneration {
                code,
                message,
                length,
                details,
            } => WireError::PasswordGeneration {
                code: code@,
                message: message@,
                length,
                details: text_of(details),
            },
            SerializableError::Vault { code, message, path, details } => WireError::Vault {
                code: code@,
                message: message@,
                path: text_of(path),
                details: text_of(details),
            },
            SerializableError::Io { code, message, path, operation } => WireError::Io {
                code: code@,
                message: message@,
                path: text_of(path),
                operation: text_of(operation),
            },
            SerializableError::Data { code, message, details } => WireError::Data {
                code: code@,
                message: message@,
                details: text_of(details),
            },
            SerializableError::Validation {
                code,
                message,
                field,
                reason,
            } => WireError::Validation {
                code: code@,
                message: message@,
                field: text_of(field),
                reason: text_of(reason),
            },
            SerializableError::Unknown { code, message, details } => WireError::Unknown {
                code: code@,
                message: message@,
                details: text_of(details),
            },
        }
    }
}

} // verus!
