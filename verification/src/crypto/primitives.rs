//! The calls into the cryptographic crates that the vault is built on.
//!
//! Nothing in this file is proved: each function states what the crate it
//! calls does, and the rest of the library is verified against these
//! statements.

use vstd::prelude::*;
use aes_gcm::Aes256Gcm;
use aes_gcm::Nonce;
use aes_gcm::aead::Aead;
use aes_gcm::aead::KeyInit;
use argon2::Algorithm;
use argon2::Argon2;
use argon2::Params;
use argon2::Version;
use rand::RngCore;
use rand::rngs::OsRng;

verus! {

/// Length in bytes of an AES-256 key.
pub const CIPHER_KEY_LENGTH: usize = 32;

/// Length in bytes of an AES-GCM nonce.
pub const NONCE_LENGTH: usize = 12;

/// Length in bytes of an AES-GCM authentication tag.
pub const TAG_LENGTH: usize = 16;

/// Longest plaintext, in bytes, that AES-GCM seals.
pub const MAX_PLAINTEXT_LENGTH: u64 = 0x10_0000_0000;

/// Longest ciphertext without its tag, in bytes, that AES-GCM opens.
pub const MAX_CIPHERTEXT_LENGTH: u64 = 0x10_0000_0010;

/// Length in bytes of the keys asked of Argon2id.
pub const DERIVED_KEY_LENGTH: usize = 32;

/// Shortest salt, in bytes, that Argon2 accepts.
pub const MIN_KDF_SALT_LENGTH: usize = 8;

/// Longest password, salt or secret, in bytes, that Argon2 accepts.
pub const MAX_KDF_INPUT_LENGTH: usize = 0xFFFF_FFFF;

/// Largest number of lanes for which eight blocks per lane can still be
/// counted in 32 bits.
pub const MAX_COUNTABLE_LANES: u32 = 0x1FFF_FFFF;

/// Why Argon2 refuses a choice of costs, in its own words; `None` where it
/// accepts them. The memory is counted in KiB blocks, of which each lane
/// needs eight.
pub open spec fn argon2_params_fault(m_cost: u32, t_cost: u32, p_cost: u32) -> Option<Seq<char>> {
    if m_cost < 8 || m_cost < 8 * p_cost {
        Some("memory cost is too small"@)
    } else if t_cost < 1 {
        Some("time cost is too small"@)
    } else if p_cost < 1 {
        Some("not enough threads"@)
    } else if p_cost > 0xFF_FFFF {
        Some("too many threads"@)
    } else {
        None
    }
}

/// The 32-byte Argon2id (version 0x13) hash of a password under a salt, a
/// secret and a choice of costs; `None` where Argon2 refuses the inputs.
pub uninterp spec fn argon2id(
    password: Seq<u8>,
    salt: Seq<u8>,
    secret: Seq<u8>,
    m_cost: u32,
    t_cost: u32,
    p_cost: u32,
) -> Option<Seq<u8>>;

/// What AES-256-GCM makes of a plaintext under a key and a nonce, with no
/// associated data: the ciphertext followed by its tag.
pub uninterp spec fn aes256_gcm_seal(key: Seq<u8>, nonce: Seq<u8>, plaintext: Seq<u8>) -> Seq<u8>;

/// The plaintext that AES-256-GCM recovers from a ciphertext followed by its
/// tag; `None` where the tag does not authenticate it.
pub uninterp spec fn aes256_gcm_open(key: Seq<u8>, nonce: Seq<u8>, sealed: Seq<u8>) -> Option<
    Seq<u8>,
>;

/// `argon2::Params::new` with a 32-byte output: tells whether Argon2 accepts
/// the costs, and if not gives the text of its error.
#[verifier::external_body]
pub(crate) fn argon2_check_params(m_cost: u32, t_cost: u32, p_cost: u32) -> (fault: Option<String>)
    requires
        p_cost <= MAX_COUNTABLE_LANES,
    ensures
        fault is Some <==> argon2_params_fault(m_cost, t_cost, p_cost) is Some,
        fault matches Some(text) ==> Some(text@) == argon2_params_fault(m_cost, t_cost, p_cost),
{
    match Params::new(m_cost, t_cost, p_cost, Some(DERIVED_KEY_LENGTH)) {
        Ok(_) => None,
        Err(fault) => Some(fault.to_string()),
    }
}

/// `Argon2::hash_password_into` in an `Argon2::new` context for Argon2id,
/// version 0x13: hashes without a secret, and succeeds exactly when the salt
/// has at least 8 bytes and neither input is longer than 4 GiB.
#[verifier::external_body]
pub(crate) fn argon2id_hash(
    m_cost: u32,
    t_cost: u32,
    p_cost: u32,
    password: &[u8],
    salt: &[u8],
) -> (key: Option<Vec<u8>>)
    requires
        argon2_params_fault(m_cost, t_cost, p_cost) is None,
    ensures
        key is Some <==> argon2id(password@, salt@, Seq::empty(), m_cost, t_cost, p_cost) is Some,
        key matches Some(k) ==> (Some(k@) == argon2id(
            password@,
            salt@,
            Seq::empty(),
            m_cost,
            t_cost,
            p_cost,
        ) && k@.len() == DERIVED_KEY_LENGTH),
        key is Some <==> (MIN_KDF_SALT_LENGTH <= salt@.len() <= MAX_KDF_INPUT_LENGTH
            && password@.len() <= MAX_KDF_INPUT_LENGTH),
{
    let params = Params::new(m_cost, t_cost, p_cost, Some(DERIVED_KEY_LENGTH)).ok()?;
    let context = Argon2::new(Algorithm::Argon2id, Version::V0x13, params);
    let mut key = vec![0u8; DERIVED_KEY_LENGTH];
    context.hash_password_into(password, salt, &mut key).ok()?;
    Some(key)
}

/// `Argon2::hash_password_into` in an `Argon2::new_with_secret` context for
/// Argon2id, version 0x13: hashes with the secret mixed in, and succeeds
/// exactly when the salt has at least 8 bytes and no input is longer than
/// 4 GiB.
#[verifier::external_body]
pub(crate) fn argon2id_hash_keyed(
    m_cost: u32,
    t_cost: u32,
    p_cost: u32,
    secret: &[u8],
    password: &[u8],
    salt: &[u8],
) -> (key: Option<Vec<u8>>)
    requires
        argon2_params_fault(m_cost, t_cost, p_cost) is None,
    ensures
        key is Some <==> argon2id(password@, salt@, secret@, m_cost, t_cost, p_cost) is Some,
        key matches Some(k) ==> (Some(k@) == argon2id(
            password@,
            salt@,
            secret@,
            m_cost,
            t_cost,
            p_cost,
        ) && k@.len() == DERIVED_KEY_LENGTH),
        key is Some <==> (MIN_KDF_SALT_LENGTH <= salt@.len() <= MAX_KDF_INPUT_LENGTH
            && password@.len() <= MAX_KDF_INPUT_LENGTH && secret@.len() <= MAX_KDF_INPUT_LENGTH),
{
    let params = Params::new(m_cost, t_cost, p_cost, Some(DERIVED_KEY_LENGTH)).ok()?;
    let context = Argon2::new_with_secret(secret, Algorithm::Argon2id, Version::V0x13, params).ok()?;
    let mut key = vec![0u8; DERIVED_KEY_LENGTH];
    context.hash_password_into(password, salt, &mut key).ok()?;
    Some(key)
}

/// `Aead::encrypt` of `Aes256Gcm`, keyed by `KeyInit::new_from_slice`: seals
/// exactly when the key has 32 bytes and the plaintext is not over the
/// cipher's limit. What comes back is the ciphertext, as long as the
/// plaintext, followed by the 16-byte tag, and it opens again to the
/// plaintext under the same key and nonce.
#[verifier::external_body]
pub(crate) fn aes256_gcm_encrypt(key: &[u8], nonce: &[u8; 12], plaintext: &[u8]) -> (sealed: Option<
    Vec<u8>,
>)
    ensures
        sealed is Some <==> (key@.len() == CIPHER_KEY_LENGTH && plaintext@.len()
            <= MAX_PLAINTEXT_LENGTH),
        sealed matches Some(bytes) ==> {
            &&& bytes@ == aes256_gcm_seal(key@, nonce@, plaintext@)
            &&& bytes@.len() == plaintext@.len() + TAG_LENGTH
            &&& aes256_gcm_open(key@, nonce@, bytes@) == Some(plaintext@)
        },
{
    let cipher = Aes256Gcm::new_from_slice(key).ok()?;
    cipher.encrypt(Nonce::from_slice(nonce), plaintext).ok()
}

/// `Aead::decrypt` of `Aes256Gcm`, keyed by `KeyInit::new_from_slice`: opens
/// a ciphertext followed by its tag. It refuses a key that is not 32 bytes
/// long and an input shorter than a tag; the plaintext it gives is as long
/// as the input without the tag.
#[verifier::external_body]
pub(crate) fn aes256_gcm_decrypt(key: &[u8], nonce: &[u8; 12], sealed: &[u8]) -> (plaintext: Option<
    Vec<u8>,
>)
    ensures
        plaintext is Some <==> aes256_gcm_open(key@, nonce@, sealed@) is Some,
        plaintext matches Some(bytes) ==> {
            &&& Some(bytes@) == aes256_gcm_open(key@, nonce@, sealed@)
            &&& key@.len() == CIPHER_KEY_LENGTH
            &&& sealed@.len() >= TAG_LENGTH
            &&& bytes@.len() == sealed@.len() - TAG_LENGTH
        },
{
    let cipher = Aes256Gcm::new_from_slice(key).ok()?;
    cipher.decrypt(Nonce::from_slice(nonce), sealed).ok()
}

/// `RngCore::try_fill_bytes` of `OsRng`: as many bytes as asked for from the
/// operating system's generator, or `None` where it fails.
#[verifier::external_body]
pub(crate) fn os_random_bytes(len: usize) -> (bytes: Option<Vec<u8>>)
    ensures
        bytes matches Some(b) ==> b@.len() == len,
{
    let mut bytes = vec![0u8; len];
    OsRng.try_fill_bytes(&mut bytes).ok()?;
    Some(bytes)
}

/// `num_cpus::get_physical`: the number of physical cores of this machine.
#[verifier::external_body]
pub(crate) fn physical_cores() -> usize {
    num_cpus::get_physical()
}

} // verus!
