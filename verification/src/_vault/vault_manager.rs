//! A vault as a whole: its stored authentication state, its entries, and
//! its settings.

use vstd::prelude::*;
use crate::_vault::password_generation::PasswordGenerator;
use crate::auth::auth_service::AuthService;
use crate::auth::auth_service::password_bytes;
use crate::clock::Timestamp;
use crate::crypto::SALT_LENGTH;
use crate::crypto::key_derivation::KeyDerivation;
use crate::crypto::key_hierarchy::KeyHierarchy;
use crate::crypto::key_hierarchy::KeyHierarchyView;
use crate::crypto::primitives::MAX_KDF_INPUT_LENGTH;
use crate::crypto::secure::SecureMemory;
use crate::entry::collection::EntryCollection;
use crate::entry::entry::EntryView;
use crate::error::auth_error::AuthFailure;
use crate::error::crypto_error::CryptoError;
use crate::error::vault_error::VaultError;

verus! {

/// Everything a vault holds. The derivation settings are kept twice, here
/// and in the authentication state, and the two are kept the same.
pub struct VaultManager {
    pub auth_service: AuthService,
    pub entry_collection: EntryCollection,
    pub key_derivation_settings: KeyDerivation,
    pub password_generator_settings: PasswordGenerator,
    pub initialized: bool,
    pub last_backup_time: Timestamp,
}

impl VaultManager {
    /// Whether the settings kept here are those of the authentication
    /// state.
    pub open spec fn is_in_sync(&self) -> bool {
        self.key_derivation_settings == self.auth_service@.key_derivation
    }

    /// A new vault under the master password, with its live keys: no
    /// entries, the default settings, never backed up. A non-empty password
    /// of at most 4 GiB fails only where the operating system gives no
    /// random bytes.
    pub fn new(master_password: SecureMemory<String>) -> (made: Result<
        (Self, KeyHierarchy),
        VaultError,
    >)
        ensures
            match made {
                Ok((manager, keys)) => {
                    &&& manager.initialized
                    &&& manager.is_in_sync()
                    &&& manager.auth_service@.guards(password_bytes(master_password@), keys@.mek)
                    &&& keys@.master_key == manager.auth_service@.master_password_hash
                    &&& keys@.key_derivation == manager.key_derivation_settings
                    &&& manager.key_derivation_settings.is_valid()
                    &&& manager.entry_collection@.entries == Seq::<EntryView>::empty()
                    &&& manager.entry_collection@.entry_count == 0
                    &&& manager.password_generator_settings@.can_generate()
                    &&& manager.last_backup_time == (Timestamp { seconds: 0, nanos: 0 })
                },
                Err(VaultError::AuthError(e)) => {
                    ||| e.carries(CryptoError::SaltGenerationFailed)
                    ||| e.carries(CryptoError::MekGenerationFailed)
                    ||| e.carries(CryptoError::MekEncryptionFailed)
                    ||| e.carries(CryptoError::InvalidPasswordLength) && password_bytes(
                        master_password@,
                    ).len() == 0
                    ||| e.carries(CryptoError::KeyDerivationFailed) && password_bytes(
                        master_password@,
                    ).len() > MAX_KDF_INPUT_LENGTH
                },
                Err(_) => false,
            },
    {
        let (auth_service, key_hierarchy) = match AuthService::new(master_password) {
            Ok(made) => made,
            Err(e) => {
                return Err(VaultError::AuthError(e));
            },
        };
        let manager = Self {
            key_derivation_settings: auth_service.key_derivation().clone(),
            auth_service,
            entry_collection: EntryCollection::new(),
            password_generator_settings: PasswordGenerator::default(),
            initialized: true,
            last_backup_time: Timestamp::default(),
        };
        Ok((manager, key_hierarchy))
    }

    /// Unlocks the vault with the master password and gives its live keys.
    /// Nothing of the vault changes.
    pub fn login(&mut self, master_password: SecureMemory<String>) -> (keys: Result<
        KeyHierarchy,
        VaultError,
    >)
        ensures
            final(self).auth_service@ == old(self).auth_service@,
            final(self).entry_collection@ == old(self).entry_collection@,
            final(self).key_derivation_settings == old(self).key_derivation_settings,
            final(self).initialized == old(self).initialized,
            final(self).last_backup_time == old(self).last_backup_time,
            match keys {
                Ok(live) => old(self).initialized && old(self).auth_service@.unlock_outcome(
                    password_bytes(master_password@),
                ) == Ok::<KeyHierarchyView, AuthFailure>(live@),
                Err(VaultError::VaultNotInitialized) => !old(self).initialized,
                Err(VaultError::AuthError(e)) => old(self).initialized && e.reports_fault(
                    match old(self).auth_service@.unlock_outcome(password_bytes(master_password@)) {
                        Ok(_) => None,
                        Err(failure) => Some(failure),
                    },
                ),
                Err(_) => false,
            },
    {
        match self.validate_vault_active() {
            Ok(()) => {},
            Err(e) => {
                return Err(e);
            },
        }
        match self.auth_service.unlock(master_password) {
            Ok(key_hierarchy) => Ok(key_hierarchy),
            Err(e) => Err(VaultError::AuthError(e)),
        }
    }

    /// Moves the vault to new derivation settings and gives the live keys
    /// under them. A vault that was not set up is refused first; then the
    /// settings are judged, then the password is checked as on unlock. With
    /// valid settings and the right password the move fails only where the
    /// operating system gives no random bytes. Nothing changes on failure.
    pub fn update_key_derivation(
        &mut self,
        master_password: SecureMemory<String>,
        settings: KeyDerivation,
    ) -> (keys: Result<KeyHierarchy, VaultError>)
        ensures
            final(self).entry_collection@ == old(self).entry_collection@,
            final(self).initialized == old(self).initialized,
            final(self).last_backup_time == old(self).last_backup_time,
            match keys {
                Ok(live) => {
                    &&& old(self).initialized
                    &&& settings.is_valid()
                    &&& old(self).auth_service@.guards(
                        password_bytes(master_password@),
                        live@.mek,
                    )
                    &&& final(self).auth_service@.guards(
                        password_bytes(master_password@),
                        live@.mek,
                    )
                    &&& final(self).auth_service@.key_derivation == settings
                    &&& final(self).auth_service@.salt.len() == SALT_LENGTH
                    &&& final(self).key_derivation_settings == settings
                    &&& live@.master_key == final(self).auth_service@.master_password_hash
                    &&& live@.key_derivation == settings
                },
                Err(e) => {
                    &&& final(self).auth_service@ == old(self).auth_service@
                    &&& final(self).key_derivation_settings == old(self).key_derivation_settings
                    &&& e is VaultNotInitialized <==> !old(self).initialized
                    &&& e is VaultNotInitialized || e is AuthError
                },
            },
            keys matches Err(VaultError::AuthError(e)) ==> ({
                ||| settings.is_valid() && old(self).auth_service@.unlock_outcome(
                    password_bytes(master_password@),
                ) is Ok && (e.carries(CryptoError::SaltGenerationFailed) || e.carries(
                    CryptoError::MekEncryptionFailed,
                ))
                ||| exists|salt: Seq<u8>|
                    salt.len() == SALT_LENGTH && e.reports_fault(
                        #[trigger] old(self).auth_service@.settings_change_fault(
                            password_bytes(master_password@),
                            settings,
                            salt,
                        ),
                    )
            }),
            old(self).initialized && old(self).auth_service@.unlock_outcome(
                password_bytes(master_password@),
            ) is Ok && settings.is_valid() && password_bytes(master_password@).len()
                <= MAX_KDF_INPUT_LENGTH ==> (match keys {
                Ok(_) => true,
                Err(VaultError::AuthError(e)) => e.carries(CryptoError::SaltGenerationFailed)
                    || e.carries(CryptoError::MekEncryptionFailed),
                Err(_) => false,
            }),
    {
        match self.validate_vault_active() {
            Ok(()) => {},
            Err(e) => {
                return Err(e);
            },
        }
        let key_hierarchy = match self.auth_service.update_key_derivation(
            master_password,
            settings.clone(),
        ) {
            Ok(key_hierarchy) => key_hierarchy,
            Err(e) => {
                return Err(VaultError::AuthError(e));
            },
        };
        self.key_derivation_settings = settings;
        if self.key_derivation_settings != *self.auth_service.key_derivation() {
            return Err(VaultError::SettingsOutOfSync);
        }
        Ok(key_hierarchy)
    }

    /// Changes the master password and gives the live keys under the new
    /// one. A vault that was not set up is refused first; then the old
    /// password is checked as on unlock. With the right old password and a
    /// non-empty new one of at most 4 GiB the change fails only where the
    /// operating system gives no random bytes. Nothing changes on failure.
    pub fn change_master_password(
        &mut self,
        old_password: SecureMemory<String>,
        new_password: SecureMemory<String>,
    ) -> (keys: Result<KeyHierarchy, VaultError>)
        ensures
            final(self).entry_collection@ == old(self).entry_collection@,
            final(self).key_derivation_settings == old(self).key_derivation_settings,
            final(self).initialized == old(self).initialized,
            final(self).last_backup_time == old(self).last_backup_time,
            match keys {
                Ok(live) => {
                    &&& old(self).initialized
                    &&& old(self).auth_service@.guards(
                        password_bytes(old_password@),
                        live@.mek,
                    )
                    &&& final(self).auth_service@.guards(
                        password_bytes(new_password@),
                        live@.mek,
                    )
                    &&& final(self).auth_service@.key_derivation == old(self).auth_service@.key_derivation
                    &&& live@.master_key == final(self).auth_service@.master_password_hash
                },
                Err(e) => {
                    &&& final(self).auth_service@ == old(self).auth_service@
                    &&& e is VaultNotInitialized <==> !old(self).initialized
                    &&& e is VaultNotInitialized || e is AuthError
                },
            },
            keys matches Err(VaultError::AuthError(e)) ==> ({
                ||| old(self).auth_service@.unlock_outcome(password_bytes(old_password@)) is Ok && (
                e.carries(CryptoError::SaltGenerationFailed) || e.carries(
                    CryptoError::MekEncryptionFailed,
                ))
                ||| exists|salt: Seq<u8>|
                    salt.len() == SALT_LENGTH && e.reports_fault(
                        #[trigger] old(self).auth_service@.password_change_fault(
                            password_bytes(old_password@),
                            password_bytes(new_password@),
                            salt,
                        ),
                    )
            }),
            old(self).initialized && old(self).auth_service@.unlock_outcome(
                password_bytes(old_password@),
            ) is Ok && 0 < password_bytes(new_password@).len() <= MAX_KDF_INPUT_LENGTH ==> (
            match keys {
                Ok(_) => true,
                Err(VaultError::AuthError(e)) => e.carries(CryptoError::SaltGenerationFailed)
                    || e.carries(CryptoError::MekEncryptionFailed),
                Err(_) => false,
            }),
    {
        match self.validate_vault_active() {
            Ok(()) => {},
            Err(e) => {
                return Err(e);
            },
        }
        match self.auth_service.change_password(old_password, new_password) {
            Ok(key_hierarchy) => Ok(key_hierarchy),
            Err(e) => Err(VaultError::AuthError(e)),
        }
    }

    /// Checks that the vault was set up.
    fn validate_vault_active(&self) -> (checked: Result<(), VaultError>)
        ensures
            match checked {
                Ok(()) => self.initialized,
                Err(e) => !self.initialized && e is VaultNotInitialized,
            },
    {
        if !self.initialized {
            return Err(VaultError::VaultNotInitialized);
        }
        Ok(())
    }
}

} // verus!
