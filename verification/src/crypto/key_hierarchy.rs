//! The unlocked state of a vault: the master key derived from the password
//! and the master encryption key that seals all data.

use vstd::prelude::*;
use crate::crypto::KEY_SIZE;
use crate::crypto::SALT_LENGTH;
use crate::crypto::encrypted_data::EncryptedData;
use crate::crypto::encrypted_data::EncryptedRecord;
use crate::crypto::key_derivation::check_params;
use crate::crypto::key_derivation::KeyDerivation;
use crate::crypto::primitives::aes256_gcm_decrypt;
use crate::crypto::primitives::aes256_gcm_encrypt;
use crate::crypto::primitives::aes256_gcm_open;
use crate::crypto::primitives::aes256_gcm_seal;
use crate::crypto::primitives::argon2_params_fault;
use crate::crypto::primitives::CIPHER_KEY_LENGTH;
use crate::crypto::primitives::MAX_KDF_INPUT_LENGTH;
use crate::crypto::primitives::MAX_PLAINTEXT_LENGTH;
use crate::crypto::primitives::NONCE_LENGTH;
use crate::crypto::primitives::os_random_bytes;
use crate::crypto::primitives::TAG_LENGTH;
use crate::crypto::secure::SecureMemory;
use crate::error::crypto_error::CryptoError;

verus! {

/// What opening `record` under `key` gives: the plaintext, or `None` where
/// the tag does not authenticate the ciphertext under that key and nonce.
pub open spec fn opened(key: Seq<u8>, record: EncryptedRecord) -> Option<Seq<u8>> {
    aes256_gcm_open(key, record.nonce, record.sealed())
}

/// The record that sealing `plaintext` under `key` and `nonce` gives: the
/// ciphertext is as long as the plaintext, and the tag follows it.
pub open spec fn sealed_record(key: Seq<u8>, nonce: Seq<u8>, plaintext: Seq<u8>) -> EncryptedRecord {
    let sealed = aes256_gcm_seal(key, nonce, plaintext);
    EncryptedRecord {
        ciphertext: sealed.subrange(0, plaintext.len() as int),
        nonce,
        tag: sealed.subrange(plaintext.len() as int, plaintext.len() + TAG_LENGTH),
    }
}

/// Compares two byte strings without stopping at the first difference, so
/// that the time taken does not tell where they differ.
pub fn constant_time_eq(left: &[u8], right: &[u8]) -> (same: bool)
    ensures
        same == (left@ == right@),
{
    if left.len() != right.len() {
        return false;
    }
    let mut difference: u8 = 0;
    let mut i: usize = 0;
    assert(left@.subrange(0, 0) =~= right@.subrange(0, 0));
    while i < left.len()
        invariant
            i <= left.len(),
            left.len() == right.len(),
            difference == 0 <==> left@.subrange(0, i as int) == right@.subrange(0, i as int),
        decreases left.len() - i,
    {
        let x: u8 = left[i];
        let y: u8 = right[i];
        let before: u8 = difference;
        difference = difference | (x ^ y);
        assert((before | (x ^ y)) == 0u8 <==> (before == 0u8 && x == y)) by (bit_vector);
        proof {
            let l0 = left@.subrange(0, i as int);
            let r0 = right@.subrange(0, i as int);
            let l1 = left@.subrange(0, i + 1);
            let r1 = right@.subrange(0, i + 1);
            if l0 == r0 && x == y {
                assert(l1 =~= l0.push(x));
                assert(r1 =~= r0.push(y));
            }
            if l1 == r1 {
                assert(l1[i as int] == r1[i as int]);
                assert(l0 =~= l1.subrange(0, i as int));
                assert(r0 =~= r1.subrange(0, i as int));
            }
        }
        i = i + 1;
    }
    proof {
        assert(left@.subrange(0, i as int) =~= left@);
        assert(right@.subrange(0, i as int) =~= right@);
    }
    difference == 0
}

/// Copies twelve bytes into a nonce.
fn nonce_from(bytes: &Vec<u8>) -> (nonce: [u8; 12])
    requires
        bytes@.len() == NONCE_LENGTH,
    ensures
        nonce@ == bytes@,
{
    let mut nonce = [0u8; 12];
    let mut i: usize = 0;
    while i < 12
        invariant
            i <= 12,
            bytes@.len() == 12,
            forall|j: int| 0 <= j < i ==> nonce@[j] == bytes@[j],
        decreases 12 - i,
    {
        nonce[i] = bytes[i];
        i = i + 1;
    }
    assert(nonce@ =~= bytes@);
    nonce
}

/// Copies sixteen bytes into a tag.
fn tag_from(bytes: &Vec<u8>) -> (tag: [u8; 16])
    requires
        bytes@.len() == TAG_LENGTH,
    ensures
        tag@ == bytes@,
{
    let mut tag = [0u8; 16];
    let mut i: usize = 0;
    while i < 16
        invariant
            i <= 16,
            bytes@.len() == 16,
            forall|j: int| 0 <= j < i ==> tag@[j] == bytes@[j],
        decreases 16 - i,
    {
        tag[i] = bytes[i];
        i = i + 1;
    }
    assert(tag@ =~= bytes@);
    tag
}

/// A nonce from the operating system's generator.
pub(crate) fn fresh_nonce() -> (nonce: Option<[u8; 12]>) {
    match os_random_bytes(NONCE_LENGTH) {
        Some(bytes) => Some(nonce_from(&bytes)),
        None => None,
    }
}

/// Seals `plaintext` and parts the result into ciphertext and tag.
fn seal(key: &[u8], nonce: &[u8; 12], plaintext: &[u8]) -> (parts: Option<(Vec<u8>, [u8; 16])>)
    ensures
        parts is Some <==> key@.len() == CIPHER_KEY_LENGTH && plaintext@.len()
            <= MAX_PLAINTEXT_LENGTH,
        parts matches Some((ciphertext, tag)) ==> {
            let record = EncryptedRecord { ciphertext: ciphertext@, nonce: nonce@, tag: tag@ };
            &&& record == sealed_record(key@, nonce@, plaintext@)
            &&& ciphertext@.len() == plaintext@.len()
            &&& opened(key@, record) == Some(plaintext@)
        },
{
    match aes256_gcm_encrypt(key, nonce, plaintext) {
        None => None,
        Some(sealed) => {
            let mut ciphertext = sealed;
            let tag_start = ciphertext.len() - TAG_LENGTH;
            let tail = ciphertext.split_off(tag_start);
            let tag = tag_from(&tail);
            proof {
                assert(ciphertext@ + tag@ =~= sealed@);
            }
            Some((ciphertext, tag))
        },
    }
}

/// Joins ciphertext and tag again and opens them.
fn open(key: &[u8], record: &EncryptedData) -> (plaintext: Option<Vec<u8>>)
    ensures
        plaintext is Some <==> opened(key@, record@) is Some,
        plaintext matches Some(bytes) ==> opened(key@, record@) == Some(bytes@),
{
    let mut ciphertext_with_tag: Vec<u8> = Vec::new();
    ciphertext_with_tag.extend_from_slice(record.ciphertext());
    ciphertext_with_tag.extend_from_slice(record.tag().as_slice());
    assert(ciphertext_with_tag@ =~= record@.sealed());
    aes256_gcm_decrypt(key, record.nonce(), ciphertext_with_tag.as_slice())
}

/// What a [`KeyHierarchy`] holds, as plain values.
pub struct KeyHierarchyView {
    pub master_key: Seq<u8>,
    pub mek: Seq<u8>,
    pub key_derivation: KeyDerivation,
}

/// The live keys of an unlocked vault. Dropping the value locks the vault:
/// both keys are wiped.
#[derive(Debug)]
pub struct KeyHierarchy {
    pub master_key: SecureMemory<Vec<u8>>,
    pub mek: SecureMemory<Vec<u8>>,
    pub key_derivation: KeyDerivation,
}

impl View for KeyHierarchy {
    type V = KeyHierarchyView;

    open spec fn view(&self) -> KeyHierarchyView {
        KeyHierarchyView {
            master_key: self.master_key@,
            mek: self.mek@,
            key_derivation: self.key_derivation,
        }
    }
}

/// Why sealing the master encryption key `mek` under `master_key` fails;
/// `None` where it succeeds. The cipher refuses a key that is not 32 bytes
/// long and a plaintext over its limit; a record refuses an empty ciphertext.
pub open spec fn mek_seal_fault(master_key: Seq<u8>, mek: Seq<u8>) -> Option<CryptoError> {
    if master_key.len() != CIPHER_KEY_LENGTH || mek.len() > MAX_PLAINTEXT_LENGTH {
        Some(CryptoError::MekEncryptionFailed)
    } else if mek.len() == 0 {
        Some(CryptoError::InvalidCiphertext)
    } else {
        None
    }
}

/// Why sealing `data` under the master encryption key `mek` fails; `None`
/// where it succeeds.
pub open spec fn data_seal_fault(mek: Seq<u8>, data: Seq<u8>) -> Option<CryptoError> {
    if data.len() == 0 {
        Some(CryptoError::EmptyData)
    } else if mek.len() != CIPHER_KEY_LENGTH || data.len() > MAX_PLAINTEXT_LENGTH {
        Some(CryptoError::EncryptionFailed)
    } else {
        None
    }
}

/// The keys that a password, a stored record of the sealed master encryption
/// key, a salt and settings unlock, or the reason why they unlock none.
pub open spec fn unlocked(
    password: Seq<u8>,
    encrypted_mek: EncryptedRecord,
    salt: Seq<u8>,
    key_derivation: KeyDerivation,
) -> Result<KeyHierarchyView, CryptoError> {
    if salt.len() != SALT_LENGTH {
        Err(CryptoError::InvalidSaltLength)
    } else {
        match key_derivation.derived(password, salt) {
            Err(e) => Err(e),
            Ok(master_key) => match opened(master_key, encrypted_mek) {
                None => Err(CryptoError::MekDecryptionFailed),
                Some(mek) => if mek.len() != KEY_SIZE {
                    Err(CryptoError::InvalidKeyLength)
                } else {
                    Ok(KeyHierarchyView { master_key, mek, key_derivation })
                },
            },
        }
    }
}

impl KeyHierarchyView {
    /// The keys after a change of password, or the reason why the password
    /// is not changed. Only the master key changes.
    pub open spec fn password_changed(
        self,
        old_password: Seq<u8>,
        new_password: Seq<u8>,
        old_salt: Seq<u8>,
        new_salt: Seq<u8>,
    ) -> Result<KeyHierarchyView, CryptoError> {
        match self.key_derivation.derived(old_password, old_salt) {
            Err(e) => Err(e),
            Ok(candidate) => if candidate != self.master_key {
                Err(CryptoError::InvalidMasterPassword)
            } else {
                match self.key_derivation.derived(new_password, new_salt) {
                    Err(e) => Err(e),
                    Ok(master_key) => Ok(
                        KeyHierarchyView {
                            master_key,
                            mek: self.mek,
                            key_derivation: self.key_derivation,
                        },
                    ),
                }
            },
        }
    }

    /// Why a change of settings fails; `None` where it succeeds. The password
    /// is checked first, then the new settings, then the new derivation, then
    /// the sealing of the master encryption key.
    pub open spec fn rekey_fault(
        self,
        password: Seq<u8>,
        old_salt: Seq<u8>,
        new_key_derivation: KeyDerivation,
        new_salt: Seq<u8>,
    ) -> Option<CryptoError> {
        match self.key_derivation.derived(password, old_salt) {
            Err(e) => Some(e),
            Ok(candidate) => if candidate != self.master_key {
                Some(CryptoError::InvalidMasterPassword)
            } else {
                match check_params(
                    new_key_derivation.memory_cost(),
                    new_key_derivation.time_cost(),
                    new_key_derivation.parallelism(),
                ) {
                    Err(e) => Some(e),
                    Ok(()) => match new_key_derivation.derived(password, new_salt) {
                        Err(e) => Some(e),
                        Ok(master_key) => mek_seal_fault(master_key, self.mek),
                    },
                }
            },
        }
    }
}

impl KeyHierarchy {
    /// The keys of a new vault: fresh salt, master key under the default
    /// settings, fresh master encryption key. Also returns the salt.
    pub fn new(master_password: &[u8]) -> (made: Result<(Self, Vec<u8>), CryptoError>)
        ensures
            match made {
                Ok((keys, salt)) => {
                    &&& salt@.len() == SALT_LENGTH
                    &&& keys@.mek.len() == KEY_SIZE
                    &&& keys@.master_key.len() == CIPHER_KEY_LENGTH
                    &&& keys@.key_derivation.is_valid()
                    &&& keys@.key_derivation.derived(master_password@, salt@) == Ok::<
                        Seq<u8>,
                        CryptoError,
                    >(keys@.master_key)
                },
                Err(e) => {
                    ||| e is SaltGenerationFailed
                    ||| e is MekGenerationFailed
                    ||| e is InvalidPasswordLength && master_password@.len() == 0
                    ||| e is KeyDerivationFailed && master_password@.len() > MAX_KDF_INPUT_LENGTH
                },
            },
    {
        let key_derivation = KeyDerivation::default();
        let salt = match key_derivation.generate_salt() {
            Ok(salt) => salt,
            Err(e) => {
                return Err(e);
            },
        };
        let mek = match os_random_bytes(KEY_SIZE) {
            Some(mek) => mek,
            None => {
                return Err(CryptoError::MekGenerationFailed);
            },
        };
        Self::from_material(master_password, key_derivation, salt, mek)
    }

    /// The keys of a new vault from the material given: the master key is
    /// derived from the password under `salt`, and `mek` becomes the master
    /// encryption key. Also returns the salt.
    pub fn from_material(
        master_password: &[u8],
        key_derivation: KeyDerivation,
        salt: Vec<u8>,
        mek: Vec<u8>,
    ) -> (made: Result<(Self, Vec<u8>), CryptoError>)
        ensures
            match made {
                Ok((keys, kept)) => {
                    &&& key_derivation.derived(master_password@, salt@) == Ok::<
                        Seq<u8>,
                        CryptoError,
                    >(keys@.master_key)
                    &&& keys@.master_key.len() == CIPHER_KEY_LENGTH
                    &&& keys@.mek == mek@
                    &&& keys@.key_derivation == key_derivation
                    &&& kept@ == salt@
                },
                Err(e) => key_derivation.derived(master_password@, salt@) == Err::<
                    Seq<u8>,
                    CryptoError,
                >(e),
            },
            made is Ok <==> 0 < master_password@.len() <= MAX_KDF_INPUT_LENGTH && salt@.len()
                == SALT_LENGTH && argon2_params_fault(
                key_derivation.memory_cost(),
                key_derivation.time_cost(),
                key_derivation.parallelism(),
            ) is None,
    {
        let mek = SecureMemory::new(mek);
        match key_derivation.derive_key(master_password, salt.as_slice()) {
            Ok(master_key) => Ok((Self { master_key, mek, key_derivation }, salt)),
            Err(e) => Err(e),
        }
    }

    /// Re-creates the keys of an existing vault: derives the master key and
    /// opens the stored master encryption key with it. A wrong password or a
    /// damaged record ends in `MekDecryptionFailed`.
    pub fn from_existing(
        master_password: &[u8],
        encrypted_mek: &EncryptedData,
        salt: &[u8],
        key_derivation_settings: KeyDerivation,
    ) -> (made: Result<Self, CryptoError>)
        ensures
            match made {
                Ok(keys) => unlocked(
                    master_password@,
                    encrypted_mek@,
                    salt@,
                    key_derivation_settings,
                ) == Ok::<KeyHierarchyView, CryptoError>(keys@),
                Err(e) => unlocked(
                    master_password@,
                    encrypted_mek@,
                    salt@,
                    key_derivation_settings,
                ) == Err::<KeyHierarchyView, CryptoError>(e),
            },
    {
        let key_derivation = key_derivation_settings;
        match key_derivation.validate_salt(salt) {
            Ok(()) => {},
            Err(e) => {
                return Err(e);
            },
        }
        let master_key = match key_derivation.derive_key(master_password, salt) {
            Ok(master_key) => master_key,
            Err(e) => {
                return Err(e);
            },
        };
        let mek_vec = match Self::decrypt_mek_with_key(
            encrypted_mek,
            master_key.as_ref().as_slice(),
        ) {
            Ok(mek_vec) => mek_vec,
            Err(_) => {
                return Err(CryptoError::MekDecryptionFailed);
            },
        };
        let mek = SecureMemory::new(mek_vec);
        if mek.as_ref().len() != KEY_SIZE {
            return Err(CryptoError::InvalidKeyLength);
        }
        Ok(Self { master_key, mek, key_derivation })
    }

    /// Replaces the master key by one derived from `new_password` under a
    /// fresh salt, which is returned. The old password must derive the master
    /// key held; that is checked before the salt is drawn. The master
    /// encryption key stays, so everything sealed under it stays readable;
    /// the caller has to seal it again under the new master key and to store
    /// the new salt. Nothing changes on failure.
    pub fn change_master_password(
        &mut self,
        old_password: &[u8],
        new_password: &[u8],
        old_salt: &[u8],
    ) -> (changed: Result<Vec<u8>, CryptoError>)
        ensures
            match changed {
                Ok(salt) => salt@.len() == SALT_LENGTH && old(self)@.password_changed(
                    old_password@,
                    new_password@,
                    old_salt@,
                    salt@,
                ) == Ok::<KeyHierarchyView, CryptoError>(final(self)@),
                Err(e) => final(self)@ == old(self)@ && ({
                    ||| old(self)@.key_derivation.derived(old_password@, old_salt@) == Ok::<
                        Seq<u8>,
                        CryptoError,
                    >(old(self)@.master_key) && e is SaltGenerationFailed
                    ||| exists|salt: Seq<u8>|
                        salt.len() == SALT_LENGTH && #[trigger] old(self)@.password_changed(
                            old_password@,
                            new_password@,
                            old_salt@,
                            salt,
                        ) == Err::<KeyHierarchyView, CryptoError>(e)
                }),
            },
            old(self)@.key_derivation.derived(old_password@, old_salt@) == Ok::<
                Seq<u8>,
                CryptoError,
            >(old(self)@.master_key) && 0 < new_password@.len() <= MAX_KDF_INPUT_LENGTH ==> (
            match changed {
                Ok(_) => true,
                Err(e) => e is SaltGenerationFailed,
            }),
    {
        match self.check_password(old_password, old_salt) {
            Ok(()) => {},
            Err(e) => {
                assert(self@.password_changed(
                    old_password@,
                    new_password@,
                    old_salt@,
                    Seq::new(16, |i: int| 0u8),
                ) == Err::<KeyHierarchyView, CryptoError>(e));
                return Err(e);
            },
        }
        let new_salt = match self.key_derivation.generate_salt() {
            Ok(salt) => salt,
            Err(e) => {
                return Err(e);
            },
        };
        let ghost drawn = new_salt@;
        let changed = self.rekey_under_password(new_password, new_salt);
        proof {
            if changed is Err {
                assert(old(self)@.password_changed(
                    old_password@,
                    new_password@,
                    old_salt@,
                    drawn,
                ) == Err::<KeyHierarchyView, CryptoError>(changed->Err_0));
            }
        }
        changed
    }

    /// Replaces the master key by one derived from `new_password` under
    /// `new_salt`, which is returned. Nothing changes on failure.
    pub fn change_master_password_with_salt(
        &mut self,
        old_password: &[u8],
        new_password: &[u8],
        old_salt: &[u8],
        new_salt: Vec<u8>,
    ) -> (changed: Result<Vec<u8>, CryptoError>)
        ensures
            match changed {
                Ok(salt) => salt@ == new_salt@ && old(self)@.password_changed(
                    old_password@,
                    new_password@,
                    old_salt@,
                    new_salt@,
                ) == Ok::<KeyHierarchyView, CryptoError>(final(self)@),
                Err(e) => final(self)@ == old(self)@ && old(self)@.password_changed(
                    old_password@,
                    new_password@,
                    old_salt@,
                    new_salt@,
                ) == Err::<KeyHierarchyView, CryptoError>(e),
            },
            old(self)@.key_derivation.derived(old_password@, old_salt@) == Ok::<
                Seq<u8>,
                CryptoError,
            >(old(self)@.master_key) && 0 < new_password@.len() <= MAX_KDF_INPUT_LENGTH
                && new_salt@.len() == SALT_LENGTH ==> changed is Ok,
    {
        match self.check_password(old_password, old_salt) {
            Ok(()) => {},
            Err(e) => {
                return Err(e);
            },
        }
        self.rekey_under_password(new_password, new_salt)
    }

    /// Checks that `password` and `salt` derive the master key held,
    /// comparing in constant time.
    fn check_password(&self, password: &[u8], salt: &[u8]) -> (checked: Result<(), CryptoError>)
        ensures
            match checked {
                Ok(()) => self@.key_derivation.derived(password@, salt@) == Ok::<
                    Seq<u8>,
                    CryptoError,
                >(self@.master_key),
                Err(e) => match self@.key_derivation.derived(password@, salt@) {
                    Err(failure) => e == failure,
                    Ok(candidate) => candidate != self@.master_key && e
                        is InvalidMasterPassword,
                },
            },
            checked is Ok ==> 0 < password@.len() <= MAX_KDF_INPUT_LENGTH && argon2_params_fault(
                self@.key_derivation.memory_cost(),
                self@.key_derivation.time_cost(),
                self@.key_derivation.parallelism(),
            ) is None,
    {
        match self.verify_master_password(password, salt) {
            Ok(true) => Ok(()),
            Ok(false) => Err(CryptoError::InvalidMasterPassword),
            Err(e) => Err(e),
        }
    }

    /// Replaces the master key by one derived from `new_password` under
    /// `new_salt`, which is returned. Nothing changes on failure.
    fn rekey_under_password(&mut self, new_password: &[u8], new_salt: Vec<u8>) -> (changed: Result<
        Vec<u8>,
        CryptoError,
    >)
        ensures
            match changed {
                Ok(salt) => {
                    &&& salt@ == new_salt@
                    &&& old(self)@.key_derivation.derived(new_password@, new_salt@) == Ok::<
                        Seq<u8>,
                        CryptoError,
                    >(final(self)@.master_key)
                    &&& final(self)@.mek == old(self)@.mek
                    &&& final(self)@.key_derivation == old(self)@.key_derivation
                },
                Err(e) => final(self)@ == old(self)@ && old(self)@.key_derivation.derived(
                    new_password@,
                    new_salt@,
                ) == Err::<Seq<u8>, CryptoError>(e),
            },
            changed is Ok <==> 0 < new_password@.len() <= MAX_KDF_INPUT_LENGTH && new_salt@.len()
                == SALT_LENGTH && argon2_params_fault(
                old(self)@.key_derivation.memory_cost(),
                old(self)@.key_derivation.time_cost(),
                old(self)@.key_derivation.parallelism(),
            ) is None,
    {
        let new_master_key = match self.key_derivation.derive_key(
            new_password,
            new_salt.as_slice(),
        ) {
            Ok(key) => key,
            Err(e) => {
                return Err(e);
            },
        };
        self.master_key = new_master_key;
        Ok(new_salt)
    }

    /// Moves the vault to new derivation settings: checks the password,
    /// validates the settings, and only then draws a salt and a nonce,
    /// derives a master key under the new settings and the salt, seals the
    /// master encryption key under that key, and opens the new record again
    /// to see that it gives the key back. Returns the salt and the record
    /// for the caller to store. Nothing changes on failure.
    pub fn update_key_derivation(
        &mut self,
        master_password: &[u8],
        old_salt: &[u8],
        new_key_derivation: KeyDerivation,
    ) -> (updated: Result<(Vec<u8>, EncryptedData), CryptoError>)
        ensures
            match updated {
                Ok((salt, record)) => {
                    &&& salt@.len() == SALT_LENGTH
                    &&& old(self)@.rekey_fault(
                        master_password@,
                        old_salt@,
                        new_key_derivation,
                        salt@,
                    ) is None
                    &&& new_key_derivation.derived(master_password@, salt@) == Ok::<
                        Seq<u8>,
                        CryptoError,
                    >(final(self)@.master_key)
                    &&& final(self)@.mek == old(self)@.mek
                    &&& final(self)@.key_derivation == new_key_derivation
                    &&& record@ == sealed_record(
                        final(self)@.master_key,
                        record@.nonce,
                        old(self)@.mek,
                    )
                    &&& opened(final(self)@.master_key, record@) == Some(old(self)@.mek)
                },
                Err(e) => final(self)@ == old(self)@ && ({
                    ||| old(self)@.key_derivation.derived(master_password@, old_salt@) == Ok::<
                        Seq<u8>,
                        CryptoError,
                    >(old(self)@.master_key) && new_key_derivation.is_valid() && (e
                        is SaltGenerationFailed || e is MekEncryptionFailed)
                    ||| exists|salt: Seq<u8>|
                        salt.len() == SALT_LENGTH && #[trigger] old(self)@.rekey_fault(
                            master_password@,
                            old_salt@,
                            new_key_derivation,
                            salt,
                        ) == Some(e)
                }),
            },
            old(self)@.key_derivation.derived(master_password@, old_salt@) == Ok::<
                Seq<u8>,
                CryptoError,
            >(old(self)@.master_key) && new_key_derivation.is_valid() && master_password@.len()
                <= MAX_KDF_INPUT_LENGTH && 0 < old(self)@.mek.len() <= MAX_PLAINTEXT_LENGTH ==> (
            match updated {
                Ok(_) => true,
                Err(e) => e is SaltGenerationFailed || e is MekEncryptionFailed,
            }),
    {
        match self.check_rekey(master_password, old_salt, &new_key_derivation) {
            Ok(()) => {},
            Err(e) => {
                assert(self@.rekey_fault(
                    master_password@,
                    old_salt@,
                    new_key_derivation,
                    Seq::new(16, |i: int| 0u8),
                ) == Some(e));
                return Err(e);
            },
        }
        let new_salt = match new_key_derivation.generate_salt() {
            Ok(salt) => salt,
            Err(e) => {
                return Err(e);
            },
        };
        let nonce = match fresh_nonce() {
            Some(nonce) => nonce,
            None => {
                return Err(CryptoError::MekEncryptionFailed);
            },
        };
        let ghost drawn = new_salt@;
        let updated = self.rekey_under_settings(
            master_password,
            new_key_derivation,
            new_salt,
            nonce,
        );
        proof {
            if updated is Err {
                assert(old(self)@.rekey_fault(
                    master_password@,
                    old_salt@,
                    new_key_derivation,
                    drawn,
                ) == Some(updated->Err_0));
            }
        }
        updated
    }

    /// Moves the vault to new derivation settings with the salt and the nonce
    /// given. Nothing changes on failure.
    pub fn update_key_derivation_with(
        &mut self,
        master_password: &[u8],
        old_salt: &[u8],
        new_key_derivation: KeyDerivation,
        new_salt: Vec<u8>,
        nonce: [u8; 12],
    ) -> (updated: Result<(Vec<u8>, EncryptedData), CryptoError>)
        ensures
            match updated {
                Ok((salt, record)) => {
                    &&& salt@ == new_salt@
                    &&& old(self)@.rekey_fault(
                        master_password@,
                        old_salt@,
                        new_key_derivation,
                        new_salt@,
                    ) is None
                    &&& new_key_derivation.derived(master_password@, new_salt@) == Ok::<
                        Seq<u8>,
                        CryptoError,
                    >(final(self)@.master_key)
                    &&& final(self)@.mek == old(self)@.mek
                    &&& final(self)@.key_derivation == new_key_derivation
                    &&& record@ == sealed_record(final(self)@.master_key, nonce@, old(self)@.mek)
                    &&& opened(final(self)@.master_key, record@) == Some(old(self)@.mek)
                },
                Err(e) => final(self)@ == old(self)@ && old(self)@.rekey_fault(
                    master_password@,
                    old_salt@,
                    new_key_derivation,
                    new_salt@,
                ) == Some(e),
            },
            old(self)@.key_derivation.derived(master_password@, old_salt@) == Ok::<
                Seq<u8>,
                CryptoError,
            >(old(self)@.master_key) && new_key_derivation.is_valid() && master_password@.len()
                <= MAX_KDF_INPUT_LENGTH && new_salt@.len() == SALT_LENGTH && 0 < old(self)@.mek.len()
                <= MAX_PLAINTEXT_LENGTH ==> updated is Ok,
    {
        match self.check_rekey(master_password, old_salt, &new_key_derivation) {
            Ok(()) => {},
            Err(e) => {
                return Err(e);
            },
        }
        self.rekey_under_settings(master_password, new_key_derivation, new_salt, nonce)
    }

    /// Checks the password against the master key held, then the new
    /// settings.
    fn check_rekey(
        &self,
        master_password: &[u8],
        old_salt: &[u8],
        new_key_derivation: &KeyDerivation,
    ) -> (checked: Result<(), CryptoError>)
        ensures
            match checked {
                Ok(()) => self@.key_derivation.derived(master_password@, old_salt@) == Ok::<
                    Seq<u8>,
                    CryptoError,
                >(self@.master_key) && new_key_derivation.is_valid() && 0
                    < master_password@.len(),
                Err(e) => (self@.key_derivation.derived(master_password@, old_salt@) != Ok::<
                    Seq<u8>,
                    CryptoError,
                >(self@.master_key) || !new_key_derivation.is_valid()) && (forall|salt: Seq<u8>|
                 #[trigger]
                    self@.rekey_fault(master_password@, old_salt@, *new_key_derivation, salt)
                        == Some(e)),
            },
    {
        match self.check_password(master_password, old_salt) {
            Ok(()) => {},
            Err(e) => {
                return Err(e);
            },
        }
        match new_key_derivation.validate() {
            Ok(_) => Ok(()),
            Err(e) => Err(e),
        }
    }

    /// Derives a master key under the new settings and salt, seals the
    /// master encryption key under it, opens the record again to see that
    /// it gives the key back, and only then puts key and settings in place.
    fn rekey_under_settings(
        &mut self,
        master_password: &[u8],
        new_key_derivation: KeyDerivation,
        new_salt: Vec<u8>,
        nonce: [u8; 12],
    ) -> (updated: Result<(Vec<u8>, EncryptedData), CryptoError>)
        ensures
            match updated {
                Ok((salt, record)) => {
                    &&& salt@ == new_salt@
                    &&& new_key_derivation.derived(master_password@, new_salt@) == Ok::<
                        Seq<u8>,
                        CryptoError,
                    >(final(self)@.master_key)
                    &&& mek_seal_fault(final(self)@.master_key, old(self)@.mek) is None
                    &&& final(self)@.mek == old(self)@.mek
                    &&& final(self)@.key_derivation == new_key_derivation
                    &&& record@ == sealed_record(final(self)@.master_key, nonce@, old(self)@.mek)
                    &&& opened(final(self)@.master_key, record@) == Some(old(self)@.mek)
                },
                Err(e) => final(self)@ == old(self)@ && (match new_key_derivation.derived(
                    master_password@,
                    new_salt@,
                ) {
                    Err(failure) => e == failure,
                    Ok(master_key) => mek_seal_fault(master_key, old(self)@.mek) == Some(e),
                }),
            },
            new_key_derivation.is_valid() && 0 < master_password@.len() <= MAX_KDF_INPUT_LENGTH
                && new_salt@.len() == SALT_LENGTH && 0 < old(self)@.mek.len()
                <= MAX_PLAINTEXT_LENGTH ==> updated is Ok,
    {
        let new_master_key = match new_key_derivation.derive_key(
            master_password,
            new_salt.as_slice(),
        ) {
            Ok(key) => key,
            Err(e) => {
                return Err(e);
            },
        };
        let encrypted_mek = match self.encrypted_mek_with_nonce(
            new_master_key.as_ref().as_slice(),
            nonce,
        ) {
            Ok(record) => record,
            Err(e) => {
                return Err(e);
            },
        };
        let decrypted_mek = match Self::decrypt_mek_with_key(
            &encrypted_mek,
            new_master_key.as_ref().as_slice(),
        ) {
            Ok(mek) => SecureMemory::new(mek),
            Err(e) => {
                return Err(e);
            },
        };
        if !constant_time_eq(decrypted_mek.as_ref().as_slice(), self.mek.as_ref().as_slice()) {
            return Err(CryptoError::KeyDerivationFailed);
        }
        self.master_key = new_master_key;
        self.key_derivation = new_key_derivation;
        Ok((new_salt, encrypted_mek))
    }

    /// Seals the master encryption key under `master_key` and a fresh nonce.
    pub fn encrypted_mek(&self, master_key: &[u8]) -> (sealed: Result<EncryptedData, CryptoError>)
        ensures
            match sealed {
                Ok(record) => {
                    &&& mek_seal_fault(master_key@, self@.mek) is None
                    &&& record@ == sealed_record(master_key@, record@.nonce, self@.mek)
                    &&& opened(master_key@, record@) == Some(self@.mek)
                    &&& record@.ciphertext.len() == self@.mek.len()
                },
                Err(e) => e is MekEncryptionFailed || mek_seal_fault(master_key@, self@.mek)
                    == Some(e),
            },
    {
        let nonce_bytes = match fresh_nonce() {
            Some(nonce) => nonce,
            None => {
                return Err(CryptoError::MekEncryptionFailed);
            },
        };
        self.encrypted_mek_with_nonce(master_key, nonce_bytes)
    }

    /// Seals the master encryption key under `master_key` and `nonce`.
    pub fn encrypted_mek_with_nonce(&self, master_key: &[u8], nonce: [u8; 12]) -> (sealed: Result<
        EncryptedData,
        CryptoError,
    >)
        ensures
            match sealed {
                Ok(record) => {
                    &&& mek_seal_fault(master_key@, self@.mek) is None
                    &&& record@ == sealed_record(master_key@, nonce@, self@.mek)
                    &&& opened(master_key@, record@) == Some(self@.mek)
                    &&& record@.ciphertext.len() == self@.mek.len()
                },
                Err(e) => mek_seal_fault(master_key@, self@.mek) == Some(e),
            },
    {
        match seal(master_key, &nonce, self.mek.as_ref().as_slice()) {
            None => Err(CryptoError::MekEncryptionFailed),
            Some((ciphertext, tag)) => EncryptedData::new(ciphertext, nonce, tag),
        }
    }

    /// Seals `data` under the master encryption key and a fresh nonce. What
    /// comes back opens again to `data` under the same key.
    pub fn encrypt_data(&self, data: &[u8]) -> (sealed: Result<EncryptedData, CryptoError>)
        ensures
            match sealed {
                Ok(record) => {
                    &&& data_seal_fault(self@.mek, data@) is None
                    &&& record@ == sealed_record(self@.mek, record@.nonce, data@)
                    &&& opened(self@.mek, record@) == Some(data@)
                    &&& record@.ciphertext.len() == data@.len()
                },
                Err(e) => if data@.len() == 0 {
                    e is EmptyData
                } else {
                    e is EncryptionFailed
                },
            },
    {
        if data.is_empty() {
            return Err(CryptoError::EmptyData);
        }
        let nonce_bytes = match fresh_nonce() {
            Some(nonce) => nonce,
            None => {
                return Err(CryptoError::EncryptionFailed);
            },
        };
        self.encrypt_data_with_nonce(data, nonce_bytes)
    }

    /// Seals `data` under the master encryption key and `nonce`.
    pub fn encrypt_data_with_nonce(&self, data: &[u8], nonce: [u8; 12]) -> (sealed: Result<
        EncryptedData,
        CryptoError,
    >)
        ensures
            match sealed {
                Ok(record) => {
                    &&& data_seal_fault(self@.mek, data@) is None
                    &&& record@ == sealed_record(self@.mek, nonce@, data@)
                    &&& opened(self@.mek, record@) == Some(data@)
                    &&& record@.ciphertext.len() == data@.len()
                },
                Err(e) => data_seal_fault(self@.mek, data@) == Some(e),
            },
    {
        if data.is_empty() {
            return Err(CryptoError::EmptyData);
        }
        match seal(self.mek.as_ref().as_slice(), &nonce, data) {
            None => Err(CryptoError::EncryptionFailed),
            Some((ciphertext, tag)) => EncryptedData::new(ciphertext, nonce, tag),
        }
    }

    /// Opens `encrypted` under the master encryption key. Every failure,
    /// whatever its cause, is the one `DecryptionFailed`.
    pub fn decrypt_data(&self, encrypted: &EncryptedData) -> (plain: Result<Vec<u8>, CryptoError>)
        ensures
            match plain {
                Ok(bytes) => opened(self@.mek, encrypted@) == Some(bytes@),
                Err(e) => e is DecryptionFailed && opened(self@.mek, encrypted@) is None,
            },
    {
        match open(self.mek.as_ref().as_slice(), encrypted) {
            Some(bytes) => Ok(bytes),
            None => Err(CryptoError::DecryptionFailed),
        }
    }

    /// Tells whether `password` and `salt` derive the master key held.
    pub fn verify_master_password(&self, password: &[u8], salt: &[u8]) -> (verdict: Result<
        bool,
        CryptoError,
    >)
        ensures
            match verdict {
                Ok(same) => self@.key_derivation.derived(password@, salt@) matches Ok(key) && same
                    == (key == self@.master_key),
                Err(e) => self@.key_derivation.derived(password@, salt@) == Err::<
                    Seq<u8>,
                    CryptoError,
                >(e),
            },
            verdict is Ok <==> 0 < password@.len() <= MAX_KDF_INPUT_LENGTH && salt@.len()
                == SALT_LENGTH && argon2_params_fault(
                self@.key_derivation.memory_cost(),
                self@.key_derivation.time_cost(),
                self@.key_derivation.parallelism(),
            ) is None,
            self@.key_derivation.is_valid() && 0 < password@.len() <= MAX_KDF_INPUT_LENGTH
                && salt@.len() == SALT_LENGTH ==> verdict is Ok,
    {
        match self.key_derivation.derive_key(password, salt) {
            Ok(derived_key) => Ok(
                constant_time_eq(
                    derived_key.as_ref().as_slice(),
                    self.master_key.as_ref().as_slice(),
                ),
            ),
            Err(e) => Err(e),
        }
    }

    /// Opens a stored master encryption key under `master_key`.
    pub fn decrypt_mek_with_key(encrypted_mek: &EncryptedData, master_key: &[u8]) -> (mek: Result<
        Vec<u8>,
        CryptoError,
    >)
        ensures
            match mek {
                Ok(bytes) => opened(master_key@, encrypted_mek@) == Some(bytes@),
                Err(e) => e is MekDecryptionFailed && opened(master_key@, encrypted_mek@) is None,
            },
    {
        match open(master_key, encrypted_mek) {
            Some(bytes) => Ok(bytes),
            None => Err(CryptoError::MekDecryptionFailed),
        }
    }
}

} // verus!
