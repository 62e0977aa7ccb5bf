//! Cryptographic building blocks of the vault.

pub mod encrypted_data;
pub mod key_derivation;
pub mod key_hierarchy;
pub mod primitives;
pub mod secure;

pub use encrypted_data::EncryptedData;
pub use key_derivation::KeyDerivation;
pub use key_hierarchy::KeyHierarchy;
pub use secure::SecureMemory;

use vstd::prelude::*;

verus! {

/// Memory cost that new vaults start with: 45 MiB, counted in KiB.
pub const RECOMMENDED_MEMORY_COST: u32 = 46_080;

/// Number of passes that new vaults start with.
pub const RECOMMENDED_TIME_COST: u32 = 1;

/// Length in bytes of every derived key.
pub const KEY_LENGTH: usize = 32;

/// Length in bytes of every salt.
pub const SALT_LENGTH: usize = 16;

/// Shortest key, in bytes, that the vault would work with.
pub const MIN_KEY_LENGTH: usize = 16;

/// Longest key, in bytes, that the vault would work with.
pub const MAX_KEY_LENGTH: usize = 64;

/// Largest memory cost accepted: 8 GiB, counted in KiB.
pub const MAX_MEMORY_COST: u32 = 8_388_608;

/// Largest number of passes accepted.
pub const MAX_TIME_COST: u32 = 50;

/// Largest number of lanes accepted.
pub const MAX_PARALLELISM: u32 = 16;

/// Length in bytes of the master encryption key.
pub const KEY_SIZE: usize = 32;

} // verus!
