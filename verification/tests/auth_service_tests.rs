use password_manager_backend::auth::auth_service::AuthService;
use password_manager_backend::crypto::{EncryptedData, KeyDerivation, KeyHierarchy, SecureMemory};
use password_manager_backend::error::auth_error::AuthError;
use password_manager_backend::error::crypto_error::CryptoError;

fn secret(password: &str) -> SecureMemory<String> {
    SecureMemory::new(password.to_string())
}

fn light() -> KeyDerivation {
    KeyDerivation::new(64, 1, 1).expect("light settings are valid")
}

fn light_vault(password: &str) -> (AuthService, KeyHierarchy) {
    AuthService::from_material(secret(password), light(), vec![5u8; 16], vec![6u8; 32], [7u8; 12])
        .expect("vault")
}

fn stored(service: &AuthService) -> (Vec<u8>, Vec<u8>, Vec<u8>, [u8; 12], [u8; 16], KeyDerivation) {
    (
        service.master_password_hash().to_vec(),
        service.salt().to_vec(),
        service.encrypted_mek().ciphertext().to_vec(),
        *service.encrypted_mek().nonce(),
        *service.encrypted_mek().tag(),
        service.key_derivation().clone(),
    )
}

fn crypto_text(result: Result<KeyHierarchy, AuthError>) -> String {
    match result {
        Err(AuthError::CryptoError(text)) => text,
        Err(other) => panic!("another error: {:?}", other),
        Ok(_) => panic!("succeeded"),
    }
}

#[test]
fn a_vault_from_material_is_what_the_material_says() {
    let (service, keys) = light_vault("Correct1!");
    let hash = light().derive_key(b"Correct1!", &[5u8; 16]).unwrap();
    assert_eq!(service.master_password_hash(), hash.as_ref().as_slice());
    assert_eq!(service.salt(), &[5u8; 16]);
    assert_eq!(service.key_derivation(), &light());
    assert_eq!(service.encrypted_mek().nonce(), &[7u8; 12]);
    assert_eq!(service.encrypted_mek().ciphertext().len(), 32);
    assert_eq!(keys.mek.as_ref().as_slice(), &[6u8; 32]);
    assert_eq!(keys.master_key.as_ref(), hash.as_ref());
    let opened =
        KeyHierarchy::decrypt_mek_with_key(service.encrypted_mek(), hash.as_ref()).unwrap();
    assert_eq!(opened, vec![6u8; 32]);
}

#[test]
fn creation_needs_a_password_and_a_proper_salt() {
    let made =
        AuthService::from_material(secret(""), light(), vec![5u8; 16], vec![6u8; 32], [7u8; 12]);
    match made {
        Err(AuthError::CryptoError(text)) => assert_eq!(text, "Invalid password length"),
        _ => panic!("an empty password was taken"),
    }
    let made = AuthService::from_material(
        secret("Correct1!"),
        light(),
        vec![5u8; 12],
        vec![6u8; 32],
        [7u8; 12],
    );
    match made {
        Err(AuthError::CryptoError(text)) => assert_eq!(text, "Invalid salt length"),
        _ => panic!("a short salt was taken"),
    }
    assert!(AuthService::new(secret("")).is_err());
}

#[test]
fn a_new_vault_has_fresh_material_and_default_settings() {
    let (first, first_keys) = AuthService::new(secret("Correct1!")).expect("vault");
    let (second, second_keys) = AuthService::new(secret("Correct1!")).expect("vault");
    assert_eq!(first.salt().len(), 16);
    assert_eq!(first.master_password_hash().len(), 32);
    assert_eq!(first.key_derivation().memory_cost(), 46_080);
    assert_eq!(first.key_derivation().time_cost(), 1);
    assert_ne!(first.salt(), second.salt());
    assert_ne!(first.master_password_hash(), second.master_password_hash());
    assert_ne!(first_keys.mek.as_ref(), second_keys.mek.as_ref());
    assert_eq!(first_keys.master_key.as_ref().as_slice(), first.master_password_hash());
}

/// Create, unlock, refuse, change, refuse the old, accept the new.
#[test]
fn the_whole_life_of_a_vault() {
    let (mut service, keys) = light_vault("Correct1!");
    let record = keys.encrypt_data(b"sealed before the change").unwrap();
    drop(keys);
    let first = stored(&service);

    let unlocked = service.unlock(secret("Correct1!")).expect("unlocks");
    assert_eq!(unlocked.mek.as_ref().as_slice(), &[6u8; 32]);
    assert_eq!(unlocked.decrypt_data(&record).unwrap(), b"sealed before the change");
    assert_eq!(stored(&service), first);

    assert!(matches!(service.unlock(secret("Wrong1!")), Err(AuthError::InvalidPassword)));
    assert_eq!(stored(&service), first);

    let changed = service
        .change_password(secret("Correct1!"), secret("NewPass2!"))
        .expect("changes");
    assert_eq!(changed.mek.as_ref().as_slice(), &[6u8; 32]);
    let second = stored(&service);
    assert_ne!(second.0, first.0);
    assert_ne!(second.1, first.1);
    assert_ne!(second.2, first.2);
    assert_eq!(second.5, first.5);
    assert_eq!(changed.master_key.as_ref().as_slice(), service.master_password_hash());

    assert!(matches!(service.unlock(secret("Correct1!")), Err(AuthError::InvalidPassword)));
    let reopened = service.unlock(secret("NewPass2!")).expect("unlocks");
    assert_eq!(reopened.decrypt_data(&record).unwrap(), b"sealed before the change");
    assert_eq!(stored(&service), second);
}

#[test]
fn unlocking_reports_a_damaged_record_as_a_crypto_failure() {
    let (service, _) = light_vault("Correct1!");
    let mut tag = *service.encrypted_mek().tag();
    tag[0] ^= 1;
    let damaged = EncryptedData::new(
        service.encrypted_mek().ciphertext().to_vec(),
        *service.encrypted_mek().nonce(),
        tag,
    )
    .unwrap();
    let mut broken = AuthService::from_parts(
        service.master_password_hash().to_vec(),
        service.salt().to_vec(),
        damaged,
        service.key_derivation().clone(),
    );
    assert_eq!(
        crypto_text(broken.unlock(secret("Correct1!"))),
        "Failed to decrypt master encryption key"
    );
    assert!(matches!(broken.unlock(secret("Wrong1!")), Err(AuthError::InvalidPassword)));
}

#[test]
fn unlocking_with_an_empty_password_is_a_crypto_failure() {
    let (mut service, _) = light_vault("Correct1!");
    assert_eq!(crypto_text(service.unlock(secret(""))), "Invalid password length");
}

#[test]
fn a_stored_vault_comes_back_from_its_parts() {
    let (service, keys) = light_vault("Correct1!");
    let record = keys.encrypt_data(b"data").unwrap();
    let parts = stored(&service);
    let mut again = AuthService::from_parts(
        parts.0.clone(),
        parts.1.clone(),
        EncryptedData::new(parts.2.clone(), parts.3, parts.4).unwrap(),
        KeyDerivation::unchecked(
            parts.5.memory_cost(),
            parts.5.time_cost(),
            parts.5.parallelism(),
        ),
    );
    assert_eq!(stored(&again), parts);
    let unlocked = again.unlock(secret("Correct1!")).expect("unlocks");
    assert_eq!(unlocked.decrypt_data(&record).unwrap(), b"data");
}

#[test]
fn verifying_touches_nothing() {
    let (service, _) = light_vault("Correct1!");
    let before = stored(&service);
    assert!(service.verify_master_password(secret("Correct1!")).unwrap());
    assert!(!service.verify_master_password(secret("correct1!")).unwrap());
    assert!(matches!(
        service.verify_master_password(secret("")),
        Err(AuthError::CryptoError(_))
    ));
    assert_eq!(stored(&service), before);
}

#[test]
fn a_password_change_with_given_material_is_determined() {
    let (mut first, _) = light_vault("Correct1!");
    let (mut second, _) = light_vault("Correct1!");
    first
        .change_password_with(secret("Correct1!"), secret("NewPass2!"), vec![8u8; 16], [9u8; 12])
        .expect("changes");
    second
        .change_password_with(secret("Correct1!"), secret("NewPass2!"), vec![8u8; 16], [9u8; 12])
        .expect("changes");
    assert_eq!(stored(&first), stored(&second));
    assert_eq!(first.salt(), &[8u8; 16]);
    assert_eq!(first.encrypted_mek().nonce(), &[9u8; 12]);
    let hash = light().derive_key(b"NewPass2!", &[8u8; 16]).unwrap();
    assert_eq!(first.master_password_hash(), hash.as_ref().as_slice());
}

#[test]
fn a_refused_change_of_the_vault_password_changes_nothing() {
    let (mut service, _) = light_vault("Correct1!");
    let before = stored(&service);

    assert!(matches!(
        service.change_password(secret("Wrong1!"), secret("NewPass2!")),
        Err(AuthError::InvalidPassword)
    ));
    assert_eq!(stored(&service), before);

    assert_eq!(
        crypto_text(service.change_password(secret("Correct1!"), secret(""))),
        "Invalid password length"
    );
    assert_eq!(stored(&service), before);

    assert_eq!(
        crypto_text(service.change_password_with(
            secret("Correct1!"),
            secret("NewPass2!"),
            vec![8u8; 4],
            [9u8; 12]
        )),
        "Invalid salt length"
    );
    assert_eq!(stored(&service), before);
    assert!(service.unlock(secret("Correct1!")).is_ok());
}

#[test]
fn changing_to_the_same_password_keeps_it_valid() {
    let (mut service, _) = light_vault("Correct1!");
    service
        .change_password(secret("Correct1!"), secret("Correct1!"))
        .expect("changes");
    assert!(service.unlock(secret("Correct1!")).is_ok());
}

#[test]
fn moving_to_new_settings_keeps_the_data() {
    let (mut service, keys) = light_vault("Correct1!");
    let record = keys.encrypt_data(b"sealed before the move").unwrap();
    let before = stored(&service);
    let heavier = KeyDerivation::new(128, 2, 2).unwrap();

    let moved = service
        .update_key_derivation(secret("Correct1!"), heavier.clone())
        .expect("moves");
    assert_eq!(moved.key_derivation, heavier);
    assert_eq!(moved.mek.as_ref().as_slice(), &[6u8; 32]);

    let after = stored(&service);
    assert_eq!(after.5, heavier);
    assert_ne!(after.0, before.0);
    assert_ne!(after.1, before.1);
    assert_ne!(after.2, before.2);
    let hash = heavier.derive_key(b"Correct1!", service.salt()).unwrap();
    assert_eq!(service.master_password_hash(), hash.as_ref().as_slice());

    let unlocked = service.unlock(secret("Correct1!")).expect("unlocks");
    assert_eq!(unlocked.key_derivation, heavier);
    assert_eq!(unlocked.decrypt_data(&record).unwrap(), b"sealed before the move");
    assert!(matches!(service.unlock(secret("Wrong1!")), Err(AuthError::InvalidPassword)));
}

#[test]
fn a_move_with_given_material_is_determined() {
    let (mut service, _) = light_vault("Correct1!");
    let heavier = KeyDerivation::new(128, 2, 2).unwrap();
    service
        .update_key_derivation_with(secret("Correct1!"), heavier.clone(), vec![8u8; 16], [9u8; 12])
        .expect("moves");
    assert_eq!(service.salt(), &[8u8; 16]);
    assert_eq!(service.encrypted_mek().nonce(), &[9u8; 12]);
    let hash = heavier.derive_key(b"Correct1!", &[8u8; 16]).unwrap();
    assert_eq!(service.master_password_hash(), hash.as_ref().as_slice());
    let opened =
        KeyHierarchy::decrypt_mek_with_key(service.encrypted_mek(), hash.as_ref()).unwrap();
    assert_eq!(opened, vec![6u8; 32]);
}

#[test]
fn bad_settings_are_caught_before_anything_else() {
    let (mut service, _) = light_vault("Correct1!");
    let before = stored(&service);

    // Even with a wrong password the settings are reported first.
    assert_eq!(
        crypto_text(service.update_key_derivation(secret("Wrong1!"), KeyDerivation::unchecked(4, 1, 1))),
        "Invalid memory cost"
    );
    assert_eq!(
        crypto_text(
            service.update_key_derivation(secret("Correct1!"), KeyDerivation::unchecked(64, 51, 1))
        ),
        "Invalid time cost"
    );
    assert_eq!(
        crypto_text(
            service.update_key_derivation(secret("Correct1!"), KeyDerivation::unchecked(1024, 1, 0))
        ),
        "Invalid parallelism parameter"
    );
    assert_eq!(stored(&service), before);
}

#[test]
fn a_move_with_the_wrong_password_changes_nothing() {
    let (mut service, _) = light_vault("Correct1!");
    let before = stored(&service);
    let heavier = KeyDerivation::new(128, 2, 2).unwrap();
    assert!(matches!(
        service.update_key_derivation(secret("Wrong1!"), heavier),
        Err(AuthError::InvalidPassword)
    ));
    assert_eq!(stored(&service), before);
}

#[test]
fn crypto_failures_keep_their_text() {
    let wrapped = AuthError::from_crypto(CryptoError::MekDecryptionFailed);
    assert!(matches!(wrapped, AuthError::CryptoError(ref text)
        if text == "Failed to decrypt master encryption key"));
    let wrapped: AuthError = CryptoError::Argon2Error("too many threads".to_string()).into();
    assert!(matches!(wrapped, AuthError::CryptoError(ref text)
        if text == "Argon2 error: too many threads"));
}

#[test]
fn wiping_the_stored_state_leaves_nothing_but_the_settings() {
    let (mut service, _) = light_vault("Correct1!");
    service.zeroize();
    assert!(service.master_password_hash().is_empty());
    assert!(service.salt().is_empty());
    assert!(service.encrypted_mek().ciphertext().is_empty());
    assert_eq!(service.encrypted_mek().nonce(), &[0u8; 12]);
    assert_eq!(service.encrypted_mek().tag(), &[0u8; 16]);
    assert_eq!(service.key_derivation(), &light());
    assert!(service.unlock(secret("Correct1!")).is_err());
}
