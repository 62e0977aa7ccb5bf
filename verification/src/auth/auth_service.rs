//! The persisted record of a vault: password hash, salt, sealed master
//! encryption key and derivation settings, and the operations that keep the
//! four consistent.

use vstd::prelude::*;
use crate::crypto::KEY_SIZE;
use crate::crypto::SALT_LENGTH;
use crate::crypto::encrypted_data::EncryptedData;
use crate::crypto::encrypted_data::EncryptedRecord;
use crate::crypto::key_derivation::check_params;
use crate::crypto::key_derivation::KeyDerivation;
use crate::crypto::key_hierarchy::constant_time_eq;
use crate::crypto::key_hierarchy::fresh_nonce;
use crate::crypto::key_hierarchy::KeyHierarchy;
use crate::crypto::key_hierarchy::KeyHierarchyView;
use crate::crypto::key_hierarchy::mek_seal_fault;
use crate::crypto::key_hierarchy::opened;
use crate::crypto::key_hierarchy::sealed_record;
use crate::crypto::key_hierarchy::unlocked;
use crate::crypto::primitives::MAX_KDF_INPUT_LENGTH;
use crate::crypto::primitives::os_random_bytes;
use crate::crypto::secure::SecureMemory;
use crate::crypto::secure::zeroize_bytes;
use crate::error::auth_error::AuthError;
use crate::error::auth_error::AuthFailure;
use crate::error::crypto_error::CryptoError;

verus! {

/// The bytes of a password: its text in UTF-8.
pub open spec fn password_bytes(password: Seq<char>) -> Seq<u8> {
    vstd::utf8::encode_utf8(password)
}

/// What an [`AuthService`] holds, as plain values.
pub struct AuthRecord {
    pub master_password_hash: Seq<u8>,
    pub salt: Seq<u8>,
    pub encrypted_mek: EncryptedRecord,
    pub key_derivation: KeyDerivation,
}

impl AuthRecord {
    /// The record answers to `password` and keeps `mek`: the password derives
    /// the stored hash under the stored salt and settings, and the stored
    /// record opens under that hash to the 32-byte key `mek`.
    pub open spec fn guards(self, password: Seq<u8>, mek: Seq<u8>) -> bool {
        &&& self.key_derivation.derived(password, self.salt) == Ok::<Seq<u8>, CryptoError>(
            self.master_password_hash,
        )
        &&& opened(self.master_password_hash, self.encrypted_mek) == Some(mek)
        &&& mek.len() == KEY_SIZE
    }

    /// The outcome of unlocking with `password`: the hash is compared first,
    /// and only a password that derives it gets to open the stored key.
    pub open spec fn unlock_outcome(self, password: Seq<u8>) -> Result<
        KeyHierarchyView,
        AuthFailure,
    > {
        match self.key_derivation.derived(password, self.salt) {
            Err(e) => Err(AuthFailure::Crypto(e)),
            Ok(candidate) => if candidate != self.master_password_hash {
                Err(AuthFailure::InvalidPassword)
            } else {
                match unlocked(password, self.encrypted_mek, self.salt, self.key_derivation) {
                    Ok(keys) => Ok(keys),
                    Err(e) => Err(AuthFailure::Crypto(e)),
                }
            },
        }
    }

    /// Why creating a vault from the given material fails; `None` where it
    /// succeeds.
    pub open spec fn creation_fault(
        password: Seq<u8>,
        key_derivation: KeyDerivation,
        salt: Seq<u8>,
        mek: Seq<u8>,
    ) -> Option<AuthFailure> {
        match key_derivation.derived(password, salt) {
            Err(e) => Some(AuthFailure::Crypto(e)),
            Ok(hash) => match mek_seal_fault(hash, mek) {
                Some(e) => Some(AuthFailure::Crypto(e)),
                None => None,
            },
        }
    }

    /// Why a change of password fails; `None` where it succeeds. The old
    /// password is checked as on unlock.
    pub open spec fn password_change_fault(
        self,
        old_password: Seq<u8>,
        new_password: Seq<u8>,
        new_salt: Seq<u8>,
    ) -> Option<AuthFailure> {
        match self.unlock_outcome(old_password) {
            Err(failure) => Some(failure),
            Ok(keys) => match self.key_derivation.derived(new_password, new_salt) {
                Err(e) => Some(AuthFailure::Crypto(e)),
                Ok(hash) => match mek_seal_fault(hash, keys.mek) {
                    Some(e) => Some(AuthFailure::Crypto(e)),
                    None => None,
                },
            },
        }
    }

    /// Why a change of settings fails; `None` where it succeeds. The new
    /// settings are judged before anything is derived; then the password is
    /// checked as on unlock.
    pub open spec fn settings_change_fault(
        self,
        password: Seq<u8>,
        new_key_derivation: KeyDerivation,
        new_salt: Seq<u8>,
    ) -> Option<AuthFailure> {
        match check_params(
            new_key_derivation.memory_cost(),
            new_key_derivation.time_cost(),
            new_key_derivation.parallelism(),
        ) {
            Err(e) => Some(AuthFailure::Crypto(e)),
            Ok(()) => match self.unlock_outcome(password) {
                Err(failure) => Some(failure),
                Ok(keys) => match keys.rekey_fault(
                    password,
                    self.salt,
                    new_key_derivation,
                    new_salt,
                ) {
                    Some(e) => Some(AuthFailure::Crypto(e)),
                    None => None,
                },
            },
        }
    }
}

/// The persisted state of a vault. The four fields belong together: the hash
/// is what the current password derives under the salt and the settings, and
/// the record is the master encryption key sealed under that hash. Every
/// operation replaces all of them or none.
#[derive(Debug)]
pub struct AuthService {
    master_password_hash: Vec<u8>,
    salt: Vec<u8>,
    encrypted_mek: EncryptedData,
    key_derivation: KeyDerivation,
}

impl View for AuthService {
    type V = AuthRecord;

    closed spec fn view(&self) -> AuthRecord {
        AuthRecord {
            master_password_hash: self.master_password_hash@,
            salt: self.salt@,
            encrypted_mek: self.encrypted_mek@,
            key_derivation: self.key_derivation,
        }
    }
}

impl AuthService {
    /// Creates the stored state and the live keys of a new vault.
    ///
    /// On success the stored state answers to the password and keeps the
    /// master encryption key of the keys returned. A non-empty password of at
    /// most 4 GiB fails only where the operating system gives no random
    /// bytes.
    pub fn new(master_password: SecureMemory<String>) -> (made: Result<
        (Self, KeyHierarchy),
        AuthError,
    >)
        ensures
            match made {
                Ok((service, keys)) => {
                    &&& service@.guards(password_bytes(master_password@), keys@.mek)
                    &&& keys@.master_key == service@.master_password_hash
                    &&& keys@.key_derivation == service@.key_derivation
                    &&& service@.key_derivation.is_valid()
                    &&& service@.salt.len() == SALT_LENGTH
                    &&& service@.master_password_hash.len() == KEY_SIZE
                    &&& keys@.mek.len() == KEY_SIZE
                },
                Err(e) => {
                    ||| e.carries(CryptoError::SaltGenerationFailed)
                    ||| e.carries(CryptoError::MekGenerationFailed)
                    ||| e.carries(CryptoError::MekEncryptionFailed)
                    ||| e.carries(CryptoError::InvalidPasswordLength) && password_bytes(
                        master_password@,
                    ).len() == 0
                    ||| e.carries(CryptoError::KeyDerivationFailed) && password_bytes(
                        master_password@,
                    ).len() > MAX_KDF_INPUT_LENGTH
                },
            },
    {
        let key_derivation = KeyDerivation::default();
        let salt = match key_derivation.generate_salt() {
            Ok(salt) => salt,
            Err(e) => {
                return Err(AuthError::from_crypto(e));
            },
        };
        let mek = match os_random_bytes(KEY_SIZE) {
            Some(mek) => mek,
            None => {
                return Err(AuthError::from_crypto(CryptoError::MekGenerationFailed));
            },
        };
        let nonce = match fresh_nonce() {
            Some(nonce) => nonce,
            None => {
                return Err(AuthError::from_crypto(CryptoError::MekEncryptionFailed));
            },
        };
        Self::from_material(master_password, key_derivation, salt, mek, nonce)
    }

    /// Creates the stored state and the live keys of a new vault from the
    /// material given: settings, salt, master encryption key, and the nonce
    /// under which that key is sealed.
    pub fn from_material(
        master_password: SecureMemory<String>,
        key_derivation: KeyDerivation,
        salt: Vec<u8>,
        mek: Vec<u8>,
        nonce: [u8; 12],
    ) -> (made: Result<(Self, KeyHierarchy), AuthError>)
        ensures
            match made {
                Ok((service, keys)) => {
                    &&& AuthRecord::creation_fault(
                        password_bytes(master_password@),
                        key_derivation,
                        salt@,
                        mek@,
                    ) is None
                    &&& service@.key_derivation == key_derivation
                    &&& service@.salt == salt@
                    &&& key_derivation.derived(password_bytes(master_password@), salt@) == Ok::<
                        Seq<u8>,
                        CryptoError,
                    >(service@.master_password_hash)
                    &&& service@.encrypted_mek == sealed_record(
                        service@.master_password_hash,
                        nonce@,
                        mek@,
                    )
                    &&& opened(service@.master_password_hash, service@.encrypted_mek) == Some(
                        mek@,
                    )
                    &&& keys@ == (KeyHierarchyView {
                        master_key: service@.master_password_hash,
                        mek: mek@,
                        key_derivation,
                    })
                    &&& service@.master_password_hash.len() == KEY_SIZE
                },
                Err(e) => e.reports_fault(
                    AuthRecord::creation_fault(
                        password_bytes(master_password@),
                        key_derivation,
                        salt@,
                        mek@,
                    ),
                ),
            },
            key_derivation.is_valid() && 0 < password_bytes(master_password@).len()
                <= MAX_KDF_INPUT_LENGTH && salt@.len() == SALT_LENGTH && mek@.len() == KEY_SIZE
                ==> made is Ok,
    {
        let password_bytes = master_password.as_ref().as_str().as_bytes();
        let (key_hierarchy, salt) = match KeyHierarchy::from_material(
            password_bytes,
            key_derivation.clone(),
            salt,
            mek,
        ) {
            Ok(made) => made,
            Err(e) => {
                return Err(AuthError::from_crypto(e));
            },
        };
        let master_password_hash = match key_derivation.derive_key(
            password_bytes,
            salt.as_slice(),
        ) {
            Ok(hash) => hash.into_inner(),
            Err(e) => {
                return Err(AuthError::from_crypto(e));
            },
        };
        let encrypted_mek = match key_hierarchy.encrypted_mek_with_nonce(
            master_password_hash.as_slice(),
            nonce,
        ) {
            Ok(record) => record,
            Err(e) => {
                return Err(AuthError::from_crypto(e));
            },
        };
        let auth_service = AuthService {
            master_password_hash,
            salt,
            encrypted_mek,
            key_derivation,
        };
        Ok((auth_service, key_hierarchy))
    }

    /// The stored state made of the four parts as they were persisted.
    pub fn from_parts(
        master_password_hash: Vec<u8>,
        salt: Vec<u8>,
        encrypted_mek: EncryptedData,
        key_derivation: KeyDerivation,
    ) -> (service: Self)
        ensures
            service@ == (AuthRecord {
                master_password_hash: master_password_hash@,
                salt: salt@,
                encrypted_mek: encrypted_mek@,
                key_derivation,
            }),
    {
        AuthService { master_password_hash, salt, encrypted_mek, key_derivation }
    }

    /// Tells whether `password` derives the stored hash, comparing in
    /// constant time.
    fn hash_matches(&self, password: &[u8]) -> (verdict: Result<bool, CryptoError>)
        ensures
            match verdict {
                Ok(same) => self@.key_derivation.derived(password@, self@.salt) matches Ok(hash)
                    && same == (hash == self@.master_password_hash),
                Err(e) => self@.key_derivation.derived(password@, self@.salt) == Err::<
                    Seq<u8>,
                    CryptoError,
                >(e),
            },
            self@.key_derivation.is_valid() && 0 < password@.len() <= MAX_KDF_INPUT_LENGTH
                && self@.salt.len() == SALT_LENGTH ==> verdict is Ok,
    {
        match self.key_derivation.derive_key(password, self.salt.as_slice()) {
            Ok(derived_hash) => Ok(
                constant_time_eq(
                    derived_hash.as_ref().as_slice(),
                    self.master_password_hash.as_slice(),
                ),
            ),
            Err(e) => Err(e),
        }
    }

    /// Unlocks the vault: a password that derives the stored hash gets the
    /// live keys, any other is refused with `InvalidPassword`. A stored key
    /// that does not open although the hash matched is reported as a
    /// cryptographic failure. The stored state stays as it is.
    pub fn unlock(&mut self, master_password: SecureMemory<String>) -> (keys: Result<
        KeyHierarchy,
        AuthError,
    >)
        ensures
            final(self)@ == old(self)@,
            match keys {
                Ok(live) => old(self)@.unlock_outcome(password_bytes(master_password@)) == Ok::<
                    KeyHierarchyView,
                    AuthFailure,
                >(live@),
                Err(e) => old(self)@.unlock_outcome(password_bytes(master_password@)) matches Err(
                    failure,
                ) && e.reports(failure),
            },
    {
        let input_bytes = master_password.as_ref().as_str().as_bytes();
        self.unlock_with_bytes(input_bytes)
    }

    /// Unlocks with the bytes of a password.
    fn unlock_with_bytes(&self, input_bytes: &[u8]) -> (keys: Result<KeyHierarchy, AuthError>)
        ensures
            match keys {
                Ok(live) => self@.unlock_outcome(input_bytes@) == Ok::<
                    KeyHierarchyView,
                    AuthFailure,
                >(live@),
                Err(e) => self@.unlock_outcome(input_bytes@) matches Err(failure) && e.reports(
                    failure,
                ),
            },
    {
        match self.hash_matches(input_bytes) {
            Ok(true) => {},
            Ok(false) => {
                return Err(AuthError::InvalidPassword);
            },
            Err(e) => {
                return Err(AuthError::from_crypto(e));
            },
        }
        match KeyHierarchy::from_existing(
            input_bytes,
            &self.encrypted_mek,
            self.salt.as_slice(),
            self.key_derivation.clone(),
        ) {
            Ok(key_hierarchy) => Ok(key_hierarchy),
            Err(e) => Err(AuthError::from_crypto(e)),
        }
    }

    /// Changes the master password. The old password is checked first, as on
    /// unlock; only then are a salt and a nonce drawn, and hash, salt and
    /// sealed key replaced together. The settings stay, and so does the
    /// master encryption key, so everything sealed under it stays readable.
    /// Nothing changes on failure.
    pub fn change_password(
        &mut self,
        old_password: SecureMemory<String>,
        new_password: SecureMemory<String>,
    ) -> (keys: Result<KeyHierarchy, AuthError>)
        ensures
            match keys {
                Ok(live) => {
                    &&& old(self)@.guards(password_bytes(old_password@), live@.mek)
                    &&& final(self)@.guards(password_bytes(new_password@), live@.mek)
                    &&& final(self)@.key_derivation == old(self)@.key_derivation
                    &&& final(self)@.salt.len() == SALT_LENGTH
                    &&& live@.master_key == final(self)@.master_password_hash
                    &&& live@.key_derivation == final(self)@.key_derivation
                },
                Err(e) => final(self)@ == old(self)@ && ({
                    ||| old(self)@.unlock_outcome(password_bytes(old_password@)) is Ok && (
                    e.carries(CryptoError::SaltGenerationFailed) || e.carries(
                        CryptoError::MekEncryptionFailed,
                    ))
                    ||| exists|salt: Seq<u8>|
                        salt.len() == SALT_LENGTH && e.reports_fault(
                            #[trigger] old(self)@.password_change_fault(
                                password_bytes(old_password@),
                                password_bytes(new_password@),
                                salt,
                            ),
                        )
                }),
            },
            old(self)@.unlock_outcome(password_bytes(old_password@)) is Ok && 0 < password_bytes(
                new_password@,
            ).len() <= MAX_KDF_INPUT_LENGTH ==> (match keys {
                Ok(_) => true,
                Err(e) => e.carries(CryptoError::SaltGenerationFailed) || e.carries(
                    CryptoError::MekEncryptionFailed,
                ),
            }),
    {
        let old_password_bytes = old_password.as_ref().as_str().as_bytes();
        let new_password_bytes = new_password.as_ref().as_str().as_bytes();
        let key_hierarchy = match self.unlock_with_bytes(old_password_bytes) {
            Ok(keys) => keys,
            Err(e) => {
                assert(e.reports_fault(
                    self@.password_change_fault(
                        old_password_bytes@,
                        new_password_bytes@,
                        Seq::new(16, |i: int| 0u8),
                    ),
                ));
                return Err(e);
            },
        };
        let new_salt = match self.key_derivation.generate_salt() {
            Ok(salt) => salt,
            Err(e) => {
                return Err(AuthError::from_crypto(e));
            },
        };
        let nonce = match fresh_nonce() {
            Some(nonce) => nonce,
            None => {
                return Err(AuthError::from_crypto(CryptoError::MekEncryptionFailed));
            },
        };
        let ghost drawn = new_salt@;
        let keys = self.finish_password_change(
            key_hierarchy,
            old_password_bytes,
            new_password_bytes,
            new_salt,
            nonce,
        );
        proof {
            if keys is Err {
                assert(old(self)@.password_change_fault(
                    password_bytes(old_password@),
                    password_bytes(new_password@),
                    drawn,
                ) is Some);
            }
        }
        keys
    }

    /// Changes the master password with the salt and the nonce given.
    /// Nothing changes on failure.
    pub fn change_password_with(
        &mut self,
        old_password: SecureMemory<String>,
        new_password: SecureMemory<String>,
        new_salt: Vec<u8>,
        nonce: [u8; 12],
    ) -> (keys: Result<KeyHierarchy, AuthError>)
        ensures
            match keys {
                Ok(live) => {
                    &&& old(self)@.password_change_fault(
                        password_bytes(old_password@),
                        password_bytes(new_password@),
                        new_salt@,
                    ) is None
                    &&& old(self)@.guards(password_bytes(old_password@), live@.mek)
                    &&& final(self)@.guards(password_bytes(new_password@), live@.mek)
                    &&& final(self)@.key_derivation == old(self)@.key_derivation
                    &&& final(self)@.salt == new_salt@
                    &&& final(self)@.encrypted_mek == sealed_record(
                        final(self)@.master_password_hash,
                        nonce@,
                        live@.mek,
                    )
                    &&& live@.master_key == final(self)@.master_password_hash
                    &&& live@.key_derivation == final(self)@.key_derivation
                },
                Err(e) => final(self)@ == old(self)@ && e.reports_fault(
                    old(self)@.password_change_fault(
                        password_bytes(old_password@),
                        password_bytes(new_password@),
                        new_salt@,
                    ),
                ),
            },
            old(self)@.unlock_outcome(password_bytes(old_password@)) is Ok && 0 < password_bytes(
                new_password@,
            ).len() <= MAX_KDF_INPUT_LENGTH && new_salt@.len() == SALT_LENGTH ==> keys is Ok,
    {
        let old_password_bytes = old_password.as_ref().as_str().as_bytes();
        let new_password_bytes = new_password.as_ref().as_str().as_bytes();
        let key_hierarchy = match self.unlock_with_bytes(old_password_bytes) {
            Ok(keys) => keys,
            Err(e) => {
                return Err(e);
            },
        };
        self.finish_password_change(
            key_hierarchy,
            old_password_bytes,
            new_password_bytes,
            new_salt,
            nonce,
        )
    }

    /// Puts the new hash, salt and sealed key in place, for keys that the old
    /// password has unlocked. Nothing changes on failure.
    fn finish_password_change(
        &mut self,
        key_hierarchy: KeyHierarchy,
        old_password: &[u8],
        new_password: &[u8],
        new_salt: Vec<u8>,
        nonce: [u8; 12],
    ) -> (keys: Result<KeyHierarchy, AuthError>)
        requires
            old(self)@.unlock_outcome(old_password@) == Ok::<KeyHierarchyView, AuthFailure>(
                key_hierarchy@,
            ),
        ensures
            match keys {
                Ok(live) => {
                    &&& old(self)@.password_change_fault(old_password@, new_password@, new_salt@)
                        is None
                    &&& old(self)@.guards(old_password@, live@.mek)
                    &&& final(self)@.guards(new_password@, live@.mek)
                    &&& final(self)@.key_derivation == old(self)@.key_derivation
                    &&& final(self)@.salt == new_salt@
                    &&& final(self)@.encrypted_mek == sealed_record(
                        final(self)@.master_password_hash,
                        nonce@,
                        live@.mek,
                    )
                    &&& live@.master_key == final(self)@.master_password_hash
                    &&& live@.key_derivation == final(self)@.key_derivation
                },
                Err(e) => final(self)@ == old(self)@ && e.reports_fault(
                    old(self)@.password_change_fault(old_password@, new_password@, new_salt@),
                ),
            },
            0 < new_password@.len() <= MAX_KDF_INPUT_LENGTH && new_salt@.len() == SALT_LENGTH
                ==> keys is Ok,
    {
        let mut key_hierarchy = key_hierarchy;
        let new_salt = match key_hierarchy.change_master_password_with_salt(
            old_password,
            new_password,
            self.salt.as_slice(),
            new_salt,
        ) {
            Ok(salt) => salt,
            Err(e) => {
                return Err(AuthError::from_crypto(e));
            },
        };
        let master_password_hash = match self.key_derivation.derive_key(
            new_password,
            new_salt.as_slice(),
        ) {
            Ok(hash) => hash.into_inner(),
            Err(e) => {
                return Err(AuthError::from_crypto(e));
            },
        };
        let encrypted_mek = match key_hierarchy.encrypted_mek_with_nonce(
            master_password_hash.as_slice(),
            nonce,
        ) {
            Ok(record) => record,
            Err(e) => {
                return Err(AuthError::from_crypto(e));
            },
        };
        self.salt = new_salt;
        self.master_password_hash = master_password_hash;
        self.encrypted_mek = encrypted_mek;
        Ok(key_hierarchy)
    }

    /// Moves the vault to new derivation settings. The settings are judged
    /// before anything is derived, and the password is checked as on unlock:
    /// one that does not derive the stored hash is refused with
    /// `InvalidPassword`. Only then are a salt and a nonce drawn, and all
    /// four stored fields replaced together. The master encryption key
    /// stays. Nothing changes on failure.
    pub fn update_key_derivation(
        &mut self,
        master_password: SecureMemory<String>,
        new_key_derivation: KeyDerivation,
    ) -> (keys: Result<KeyHierarchy, AuthError>)
        ensures
            match keys {
                Ok(live) => {
                    &&& old(self)@.guards(password_bytes(master_password@), live@.mek)
                    &&& final(self)@.guards(password_bytes(master_password@), live@.mek)
                    &&& final(self)@.key_derivation == new_key_derivation
                    &&& new_key_derivation.is_valid()
                    &&& final(self)@.salt.len() == SALT_LENGTH
                    &&& live@.master_key == final(self)@.master_password_hash
                    &&& live@.key_derivation == new_key_derivation
                },
                Err(e) => final(self)@ == old(self)@ && ({
                    ||| new_key_derivation.is_valid() && old(self)@.unlock_outcome(
                        password_bytes(master_password@),
                    ) is Ok && (e.carries(CryptoError::SaltGenerationFailed) || e.carries(
                        CryptoError::MekEncryptionFailed,
                    ))
                    ||| exists|salt: Seq<u8>|
                        salt.len() == SALT_LENGTH && e.reports_fault(
                            #[trigger] old(self)@.settings_change_fault(
                                password_bytes(master_password@),
                                new_key_derivation,
                                salt,
                            ),
                        )
                }),
            },
            old(self)@.unlock_outcome(password_bytes(master_password@)) is Ok
                && new_key_derivation.is_valid() && password_bytes(master_password@).len()
                <= MAX_KDF_INPUT_LENGTH ==> (match keys {
                Ok(_) => true,
                Err(e) => e.carries(CryptoError::SaltGenerationFailed) || e.carries(
                    CryptoError::MekEncryptionFailed,
                ),
            }),
    {
        let password_bytes = master_password.as_ref().as_str().as_bytes();
        let key_hierarchy = match self.check_settings_change(password_bytes, &new_key_derivation) {
            Ok(keys) => keys,
            Err(e) => {
                assert(e.reports_fault(
                    self@.settings_change_fault(
                        password_bytes@,
                        new_key_derivation,
                        Seq::new(16, |i: int| 0u8),
                    ),
                ));
                return Err(e);
            },
        };
        let new_salt = match new_key_derivation.generate_salt() {
            Ok(salt) => salt,
            Err(e) => {
                return Err(AuthError::from_crypto(e));
            },
        };
        let nonce = match fresh_nonce() {
            Some(nonce) => nonce,
            None => {
                return Err(AuthError::from_crypto(CryptoError::MekEncryptionFailed));
            },
        };
        let ghost drawn = new_salt@;
        let keys = self.finish_settings_change(
            key_hierarchy,
            password_bytes,
            new_key_derivation,
            new_salt,
            nonce,
        );
        proof {
            if keys is Err {
                assert(old(self)@.settings_change_fault(
                    password_bytes@,
                    new_key_derivation,
                    drawn,
                ) is Some);
            }
        }
        keys
    }

    /// Moves the vault to new derivation settings with the salt and the nonce
    /// given. Nothing changes on failure.
    pub fn update_key_derivation_with(
        &mut self,
        master_password: SecureMemory<String>,
        new_key_derivation: KeyDerivation,
        new_salt: Vec<u8>,
        nonce: [u8; 12],
    ) -> (keys: Result<KeyHierarchy, AuthError>)
        ensures
            match keys {
                Ok(live) => {
                    &&& old(self)@.settings_change_fault(
                        password_bytes(master_password@),
                        new_key_derivation,
                        new_salt@,
                    ) is None
                    &&& old(self)@.guards(password_bytes(master_password@), live@.mek)
                    &&& final(self)@.guards(password_bytes(master_password@), live@.mek)
                    &&& final(self)@.key_derivation == new_key_derivation
                    &&& new_key_derivation.is_valid()
                    &&& final(self)@.salt == new_salt@
                    &&& final(self)@.encrypted_mek == sealed_record(
                        final(self)@.master_password_hash,
                        nonce@,
                        live@.mek,
                    )
                    &&& live@.master_key == final(self)@.master_password_hash
                    &&& live@.key_derivation == new_key_derivation
                },
                Err(e) => final(self)@ == old(self)@ && e.reports_fault(
                    old(self)@.settings_change_fault(
                        password_bytes(master_password@),
                        new_key_derivation,
                        new_salt@,
                    ),
                ),
            },
            old(self)@.unlock_outcome(password_bytes(master_password@)) is Ok
                && new_key_derivation.is_valid() && password_bytes(master_password@).len()
                <= MAX_KDF_INPUT_LENGTH && new_salt@.len() == SALT_LENGTH ==> keys is Ok,
    {
        let password_bytes = master_password.as_ref().as_str().as_bytes();
        let key_hierarchy = match self.check_settings_change(password_bytes, &new_key_derivation) {
            Ok(keys) => keys,
            Err(e) => {
                return Err(e);
            },
        };
        self.finish_settings_change(
            key_hierarchy,
            password_bytes,
            new_key_derivation,
            new_salt,
            nonce,
        )
    }

    /// Judges the new settings and then the password, as on unlock, and
    /// gives the keys that the password unlocks.
    fn check_settings_change(&self, password: &[u8], new_key_derivation: &KeyDerivation) -> (keys:
        Result<KeyHierarchy, AuthError>)
        ensures
            match keys {
                Ok(live) => new_key_derivation.is_valid() && self@.unlock_outcome(password@)
                    == Ok::<KeyHierarchyView, AuthFailure>(live@),
                Err(e) => (!new_key_derivation.is_valid() || self@.unlock_outcome(password@)
                    is Err) && (forall|salt: Seq<u8>|
                    e.reports_fault(
                        #[trigger] self@.settings_change_fault(
                            password@,
                            *new_key_derivation,
                            salt,
                        ),
                    )),
            },
    {
        match new_key_derivation.validate() {
            Ok(_) => {},
            Err(e) => {
                return Err(AuthError::from_crypto(e));
            },
        }
        self.unlock_with_bytes(password)
    }

    /// Puts the new settings, hash, salt and sealed key in place, for valid
    /// settings and keys that the password has unlocked. Nothing changes on
    /// failure.
    fn finish_settings_change(
        &mut self,
        key_hierarchy: KeyHierarchy,
        password: &[u8],
        new_key_derivation: KeyDerivation,
        new_salt: Vec<u8>,
        nonce: [u8; 12],
    ) -> (keys: Result<KeyHierarchy, AuthError>)
        requires
            new_key_derivation.is_valid(),
            old(self)@.unlock_outcome(password@) == Ok::<KeyHierarchyView, AuthFailure>(
                key_hierarchy@,
            ),
        ensures
            match keys {
                Ok(live) => {
                    &&& old(self)@.settings_change_fault(password@, new_key_derivation, new_salt@)
                        is None
                    &&& old(self)@.guards(password@, live@.mek)
                    &&& final(self)@.guards(password@, live@.mek)
                    &&& final(self)@.key_derivation == new_key_derivation
                    &&& final(self)@.salt == new_salt@
                    &&& final(self)@.encrypted_mek == sealed_record(
                        final(self)@.master_password_hash,
                        nonce@,
                        live@.mek,
                    )
                    &&& live@.master_key == final(self)@.master_password_hash
                    &&& live@.key_derivation == new_key_derivation
                },
                Err(e) => final(self)@ == old(self)@ && e.reports_fault(
                    old(self)@.settings_change_fault(password@, new_key_derivation, new_salt@),
                ),
            },
            password@.len() <= MAX_KDF_INPUT_LENGTH && new_salt@.len() == SALT_LENGTH ==> keys
                is Ok,
    {
        let mut key_hierarchy = key_hierarchy;
        let (new_salt, encrypted_mek) = match key_hierarchy.update_key_derivation_with(
            password,
            self.salt.as_slice(),
            new_key_derivation.clone(),
            new_salt,
            nonce,
        ) {
            Ok(parts) => parts,
            Err(e) => {
                return Err(AuthError::from_crypto(e));
            },
        };
        let master_password_hash = match new_key_derivation.derive_key(
            password,
            new_salt.as_slice(),
        ) {
            Ok(hash) => hash.into_inner(),
            Err(e) => {
                return Err(AuthError::from_crypto(e));
            },
        };
        self.master_password_hash = master_password_hash;
        self.key_derivation = new_key_derivation;
        self.encrypted_mek = encrypted_mek;
        self.salt = new_salt;
        Ok(key_hierarchy)
    }

    /// Tells whether `password` derives the stored hash, without touching the
    /// master encryption key.
    pub fn verify_master_password(&self, password: SecureMemory<String>) -> (verdict: Result<
        bool,
        AuthError,
    >)
        ensures
            match verdict {
                Ok(same) => self@.key_derivation.derived(password_bytes(password@), self@.salt)
                    matches Ok(hash) && same == (hash == self@.master_password_hash),
                Err(e) => self@.key_derivation.derived(password_bytes(password@), self@.salt)
                    matches Err(failure) && e.carries(failure),
            },
            self@.key_derivation.is_valid() && 0 < password_bytes(password@).len()
                <= MAX_KDF_INPUT_LENGTH && self@.salt.len() == SALT_LENGTH ==> verdict is Ok,
    {
        let password_bytes = password.as_ref().as_str().as_bytes();
        match self.hash_matches(password_bytes) {
            Ok(result) => Ok(result),
            Err(e) => Err(AuthError::from_crypto(e)),
        }
    }

    /// Overwrites what is stored: hash and salt are wiped and emptied, and so
    /// is the sealed key. The settings stay.
    pub fn zeroize(&mut self)
        ensures
            final(self)@.master_password_hash == Seq::<u8>::empty(),
            final(self)@.salt == Seq::<u8>::empty(),
            final(self)@.encrypted_mek.ciphertext == Seq::<u8>::empty(),
            final(self)@.encrypted_mek.nonce == Seq::new(12, |i: int| 0u8),
            final(self)@.encrypted_mek.tag == Seq::new(16, |i: int| 0u8),
            final(self)@.key_derivation == old(self)@.key_derivation,
    {
        zeroize_bytes(&mut self.master_password_hash);
        zeroize_bytes(&mut self.salt);
        self.encrypted_mek.zeroize();
    }

    /// The settings under which the hash was derived.
    pub fn key_derivation(&self) -> (settings: &KeyDerivation)
        ensures
            *settings == self@.key_derivation,
    {
        &self.key_derivation
    }

    /// The sealed master encryption key, for storage.
    pub fn encrypted_mek(&self) -> (record: &EncryptedData)
        ensures
            record@ == self@.encrypted_mek,
    {
        &self.encrypted_mek
    }

    /// The hash of the master password, for storage.
    pub fn master_password_hash(&self) -> (hash: &[u8])
        ensures
            hash@ == self@.master_password_hash,
    {
        self.master_password_hash.as_slice()
    }

    /// The salt of the hash, for storage.
    pub fn salt(&self) -> (salt: &[u8])
        ensures
            salt@ == self@.salt,
    {
        self.salt.as_slice()
    }
}

/// Unlocking gives the key back: a record that answers to `password` and
/// keeps `mek` unlocks under that password, and the keys it gives hold the
/// stored hash as master key and `mek` as master encryption key. So whatever
/// was sealed under `mek` before the vault was locked opens again afterwards.
pub proof fn lemma_unlock_gives_back_the_key(
    record: AuthRecord,
    password: Seq<u8>,
    mek: Seq<u8>,
    data: EncryptedRecord,
)
    requires
        record.guards(password, mek),
    ensures
        record.unlock_outcome(password) == Ok::<KeyHierarchyView, AuthFailure>(
            KeyHierarchyView {
                master_key: record.master_password_hash,
                mek,
                key_derivation: record.key_derivation,
            },
        ),
        record.unlock_outcome(password) matches Ok(keys) && opened(keys.mek, data) == opened(
            mek,
            data,
        ),
{
}

/// Unlocking refuses every other password: one that derives a key other
/// than the stored hash ends in `InvalidPassword` and yields no keys.
pub proof fn lemma_unlock_refuses_another_password(record: AuthRecord, password: Seq<u8>)
    requires
        record.key_derivation.derived(password, record.salt) matches Ok(candidate) && candidate
            != record.master_password_hash,
    ensures
        record.unlock_outcome(password) == Err::<KeyHierarchyView, AuthFailure>(
            AuthFailure::InvalidPassword,
        ),
{
}

/// The keys that unlocking gives are in step with the record: their master
/// key is the stored hash, which the password derives under the stored salt
/// and settings, and their master encryption key is what the stored record
/// opens to under that hash.
pub proof fn lemma_unlocked_keys_are_in_step(
    record: AuthRecord,
    password: Seq<u8>,
    keys: KeyHierarchyView,
)
    requires
        record.unlock_outcome(password) == Ok::<KeyHierarchyView, AuthFailure>(keys),
    ensures
        record.guards(password, keys.mek),
        keys.master_key == record.master_password_hash,
        keys.key_derivation == record.key_derivation,
{
}

/// A change of password keeps the data. `change_password` turns a record
/// that keeps `mek` under the old password into one that keeps the same
/// `mek` under the new password. Of two such records this says: each unlocks
/// under its own password to keys that open `data` alike, and the later one
/// refuses the old password wherever that derives another hash under the new
/// salt, with `InvalidPassword` where it derives one at all.
pub proof fn lemma_password_change_keeps_data(
    before: AuthRecord,
    after: AuthRecord,
    old_password: Seq<u8>,
    new_password: Seq<u8>,
    mek: Seq<u8>,
    data: EncryptedRecord,
)
    requires
        before.guards(old_password, mek),
        after.guards(new_password, mek),
    ensures
        before.unlock_outcome(old_password) matches Ok(earlier) && after.unlock_outcome(
            new_password,
        ) matches Ok(later) && opened(later.mek, data) == opened(earlier.mek, data),
        after.key_derivation.derived(old_password, after.salt) != Ok::<Seq<u8>, CryptoError>(
            after.master_password_hash,
        ) ==> after.unlock_outcome(old_password) is Err,
        after.key_derivation.derived(old_password, after.salt) matches Ok(candidate) && candidate
            != after.master_password_hash ==> after.unlock_outcome(old_password) == Err::<
            KeyHierarchyView,
            AuthFailure,
        >(AuthFailure::InvalidPassword),
{
    lemma_unlock_gives_back_the_key(before, old_password, mek, data);
    lemma_unlock_gives_back_the_key(after, new_password, mek, data);
}

/// A change of settings keeps the data. `update_key_derivation` turns a
/// record that opens to `mek` under the password into one that keeps the
/// same `mek` under the same password and the new settings. Of the later
/// record this says: it unlocks under the password, with the new settings in
/// force, to keys that open `data` as `mek` does.
pub proof fn lemma_settings_change_keeps_data(
    after: AuthRecord,
    password: Seq<u8>,
    new_key_derivation: KeyDerivation,
    mek: Seq<u8>,
    data: EncryptedRecord,
)
    requires
        after.guards(password, mek),
        after.key_derivation == new_key_derivation,
    ensures
        after.unlock_outcome(password) matches Ok(later) && later.key_derivation
            == new_key_derivation && opened(later.mek, data) == opened(mek, data),
{
    lemma_unlock_gives_back_the_key(after, password, mek, data);
}

} // verus!
