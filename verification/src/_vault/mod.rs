//! What a vault offers besides its keys.

pub mod password_generation;
pub mod vault_manager;

use vstd::prelude::*;

verus! {

/// Shortest password the generator makes.
pub const ABSOLUTE_MIN_LENGTH: usize = 5;

/// Longest password the generator makes.
pub const ABSOLUTE_MAX_LENGTH: usize = 256;

/// Length of a generated password unless configured otherwise.
pub const DEFAULT_LENGTH: usize = 16;

/// Digits in a generated password unless configured otherwise.
pub const DEFAULT_MIN_NUMBERS: usize = 2;

/// Symbols in a generated password unless configured otherwise.
pub const DEFAULT_MIN_SYMBOLS: usize = 2;

} // verus!
