//! Entries of the vault and their sealed fields.

pub mod collection;
pub mod entry;
pub mod overview;
pub mod search;
pub mod sensitive_data;

use vstd::prelude::*;

verus! {

/// Longest title, in bytes.
pub const MAX_TITLE_LENGTH: usize = 100;

/// Longest user name, in bytes.
pub const MAX_USERNAME_LENGTH: usize = 100;

/// Longest URL, in bytes.
pub const MAX_URL_LENGTH: usize = 2048;

/// Longest note, in bytes.
pub const MAX_NOTES_LENGTH: usize = 10000;

/// Longest password of an entry, in bytes.
pub const MAX_PASS_CHAR_LENGTH: usize = 128;

} // verus!
