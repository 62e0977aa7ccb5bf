use password_manager_backend::crypto::key_hierarchy::constant_time_eq;
use password_manager_backend::crypto::{EncryptedData, KeyDerivation, KeyHierarchy, SecureMemory};
use password_manager_backend::error::crypto_error::CryptoError;

fn light() -> KeyDerivation {
    KeyDerivation::new(64, 1, 1).expect("light settings are valid")
}

fn keys_with_mek(mek: Vec<u8>) -> KeyHierarchy {
    KeyHierarchy {
        master_key: SecureMemory::new(vec![1u8; 32]),
        mek: SecureMemory::new(mek),
        key_derivation: light(),
    }
}

fn light_keys(password: &[u8], salt: [u8; 16], mek: [u8; 32]) -> KeyHierarchy {
    let (keys, kept) =
        KeyHierarchy::from_material(password, light(), salt.to_vec(), mek.to_vec())
            .expect("keys");
    assert_eq!(kept, salt.to_vec());
    keys
}

fn hex(text: &str) -> Vec<u8> {
    (0..text.len())
        .step_by(2)
        .map(|i| u8::from_str_radix(&text[i..i + 2], 16).unwrap())
        .collect()
}

#[test]
fn constant_time_comparison() {
    assert!(constant_time_eq(b"", b""));
    assert!(constant_time_eq(b"abc", b"abc"));
    assert!(!constant_time_eq(b"abc", b"abd"));
    assert!(!constant_time_eq(b"abc", b"bbc"));
    assert!(!constant_time_eq(b"abc", b"abcd"));
    assert!(!constant_time_eq(b"abc", b""));
    assert!(!constant_time_eq(&[0x01, 0x02], &[0x02, 0x01]));
    assert!(!constant_time_eq(&[0x80], &[0x00]));
}

/// AES-256-GCM with an all-zero key and nonce on one all-zero block, as in
/// the test cases published with the GCM specification.
#[test]
fn sealing_matches_the_published_vector() {
    let keys = keys_with_mek(vec![0u8; 32]);
    let record = keys
        .encrypt_data_with_nonce(&[0u8; 16], [0u8; 12])
        .expect("sealed");
    assert_eq!(record.ciphertext(), hex("cea7403d4d606b6e074ec5d3baf39d18").as_slice());
    assert_eq!(record.tag().as_slice(), hex("d0d1c8a799996bf0265b98b5d48ab919").as_slice());
    assert_eq!(record.nonce(), &[0u8; 12]);
}

/// The same key and nonce with an empty plaintext give this tag; it is what
/// an empty master encryption key would be sealed to, and a record refuses
/// the empty ciphertext.
#[test]
fn sealing_an_empty_key_is_refused_by_the_record() {
    let keys = keys_with_mek(Vec::new());
    let sealed = keys.encrypted_mek_with_nonce(&[0u8; 32], [0u8; 12]);
    assert!(matches!(sealed, Err(CryptoError::InvalidCiphertext)));
}

#[test]
fn opening_the_published_vector() {
    let keys = keys_with_mek(vec![0u8; 32]);
    let mut tag = [0u8; 16];
    tag.copy_from_slice(&hex("d0d1c8a799996bf0265b98b5d48ab919"));
    let record =
        EncryptedData::new(hex("cea7403d4d606b6e074ec5d3baf39d18"), [0u8; 12], tag).unwrap();
    assert_eq!(keys.decrypt_data(&record).expect("opened"), vec![0u8; 16]);
}

#[test]
fn sealed_data_opens_again() {
    let keys = keys_with_mek(vec![42u8; 32]);
    for data in [&b"x"[..], &b"test data"[..], &[0u8; 1000][..]] {
        let record = keys.encrypt_data(data).expect("sealed");
        assert_eq!(record.ciphertext().len(), data.len());
        assert_eq!(keys.decrypt_data(&record).expect("opened"), data);
    }
}

#[test]
fn sealing_is_determined_by_key_nonce_and_data() {
    let keys = keys_with_mek(vec![42u8; 32]);
    let first = keys.encrypt_data_with_nonce(b"data", [3u8; 12]).unwrap();
    let second = keys.encrypt_data_with_nonce(b"data", [3u8; 12]).unwrap();
    let other_nonce = keys.encrypt_data_with_nonce(b"data", [4u8; 12]).unwrap();
    assert_eq!(first.ciphertext(), second.ciphertext());
    assert_eq!(first.tag(), second.tag());
    assert_ne!(first.ciphertext(), other_nonce.ciphertext());
    assert_ne!(first.ciphertext(), b"data");
}

#[test]
fn fresh_nonces_differ() {
    let keys = keys_with_mek(vec![42u8; 32]);
    let mut seen: Vec<[u8; 12]> = Vec::new();
    for _ in 0..64 {
        let record = keys.encrypt_data(b"the same plaintext").expect("sealed");
        assert!(!seen.contains(record.nonce()));
        seen.push(*record.nonce());
    }
    let first = keys.encrypt_data(b"the same plaintext").unwrap();
    let second = keys.encrypt_data(b"the same plaintext").unwrap();
    assert_ne!(first.ciphertext(), second.ciphertext());
}

#[test]
fn empty_data_is_refused() {
    let keys = keys_with_mek(vec![42u8; 32]);
    assert!(matches!(keys.encrypt_data(b""), Err(CryptoError::EmptyData)));
    assert!(matches!(
        keys.encrypt_data_with_nonce(b"", [0u8; 12]),
        Err(CryptoError::EmptyData)
    ));
}

#[test]
fn a_key_of_another_length_seals_nothing() {
    let keys = keys_with_mek(vec![42u8; 16]);
    assert!(matches!(keys.encrypt_data(b"data"), Err(CryptoError::EncryptionFailed)));
    let record = EncryptedData::zero();
    assert!(matches!(keys.decrypt_data(&record), Err(CryptoError::DecryptionFailed)));
    let keys = keys_with_mek(vec![42u8; 32]);
    assert!(matches!(
        keys.encrypted_mek(&[1u8; 31]),
        Err(CryptoError::MekEncryptionFailed)
    ));
}

#[test]
fn any_flipped_bit_is_detected() {
    let keys = keys_with_mek(vec![42u8; 32]);
    let record = keys.encrypt_data(b"tamper with me").expect("sealed");
    for byte in 0..record.ciphertext().len() {
        for bit in 0..8 {
            let mut ciphertext = record.ciphertext().to_vec();
            ciphertext[byte] ^= 1 << bit;
            let forged = EncryptedData::new(ciphertext, *record.nonce(), *record.tag()).unwrap();
            assert!(matches!(keys.decrypt_data(&forged), Err(CryptoError::DecryptionFailed)));
        }
    }
    for byte in 0..16 {
        for bit in 0..8 {
            let mut tag = *record.tag();
            tag[byte] ^= 1 << bit;
            let forged =
                EncryptedData::new(record.ciphertext().to_vec(), *record.nonce(), tag).unwrap();
            assert!(matches!(keys.decrypt_data(&forged), Err(CryptoError::DecryptionFailed)));
        }
    }
    for byte in 0..12 {
        let mut nonce = *record.nonce();
        nonce[byte] ^= 1;
        let forged =
            EncryptedData::new(record.ciphertext().to_vec(), nonce, *record.tag()).unwrap();
        assert!(matches!(keys.decrypt_data(&forged), Err(CryptoError::DecryptionFailed)));
    }
}

#[test]
fn another_key_opens_nothing() {
    let keys = keys_with_mek(vec![42u8; 32]);
    let other = keys_with_mek(vec![43u8; 32]);
    let record = keys.encrypt_data(b"data").expect("sealed");
    assert!(matches!(other.decrypt_data(&record), Err(CryptoError::DecryptionFailed)));
}

#[test]
fn new_keys_are_fresh() {
    let (first, first_salt) = KeyHierarchy::new(b"password").expect("keys");
    assert_eq!(first_salt.len(), 16);
    assert_eq!(first.mek.as_ref().len(), 32);
    assert_eq!(first.master_key.as_ref().len(), 32);
    assert!(first.key_derivation.validate().is_ok());
    let again = first
        .key_derivation
        .derive_key(b"password", &first_salt)
        .expect("key");
    assert_eq!(again.as_ref(), first.master_key.as_ref());
    assert!(first.verify_master_password(b"password", &first_salt).unwrap());
}

#[test]
fn new_keys_need_a_password() {
    assert!(matches!(
        KeyHierarchy::new(b""),
        Err(CryptoError::InvalidPasswordLength)
    ));
}

#[test]
fn keys_from_material() {
    let keys = light_keys(b"password", [5u8; 16], [6u8; 32]);
    assert_eq!(keys.mek.as_ref().as_slice(), &[6u8; 32]);
    assert_eq!(keys.key_derivation, light());
    let derived = light().derive_key(b"password", &[5u8; 16]).unwrap();
    assert_eq!(keys.master_key.as_ref(), derived.as_ref());
    assert!(matches!(
        KeyHierarchy::from_material(b"", light(), vec![5u8; 16], vec![6u8; 32]),
        Err(CryptoError::InvalidPasswordLength)
    ));
    assert!(matches!(
        KeyHierarchy::from_material(b"password", light(), vec![5u8; 15], vec![6u8; 32]),
        Err(CryptoError::InvalidSaltLength)
    ));
}

#[test]
fn sealed_key_opens_under_the_master_key() {
    let keys = light_keys(b"password", [5u8; 16], [6u8; 32]);
    let sealed = keys
        .encrypted_mek(keys.master_key.as_ref())
        .expect("sealed");
    assert_eq!(sealed.ciphertext().len(), 32);
    let opened = KeyHierarchy::decrypt_mek_with_key(&sealed, keys.master_key.as_ref()).unwrap();
    assert_eq!(opened, vec![6u8; 32]);
    assert!(matches!(
        KeyHierarchy::decrypt_mek_with_key(&sealed, &[0u8; 32]),
        Err(CryptoError::MekDecryptionFailed)
    ));
    assert!(matches!(
        KeyHierarchy::decrypt_mek_with_key(&sealed, &[0u8; 5]),
        Err(CryptoError::MekDecryptionFailed)
    ));
}

#[test]
fn existing_keys_come_back() {
    let keys = light_keys(b"password", [5u8; 16], [6u8; 32]);
    let sealed = keys.encrypted_mek(keys.master_key.as_ref()).unwrap();
    let again =
        KeyHierarchy::from_existing(b"password", &sealed, &[5u8; 16], light()).expect("keys");
    assert_eq!(again.mek.as_ref(), keys.mek.as_ref());
    assert_eq!(again.master_key.as_ref(), keys.master_key.as_ref());
    assert_eq!(again.key_derivation, light());
}

#[test]
fn existing_keys_refuse_wrong_inputs() {
    let keys = light_keys(b"password", [5u8; 16], [6u8; 32]);
    let sealed = keys.encrypted_mek(keys.master_key.as_ref()).unwrap();
    assert!(matches!(
        KeyHierarchy::from_existing(b"wrong", &sealed, &[5u8; 16], light()),
        Err(CryptoError::MekDecryptionFailed)
    ));
    assert!(matches!(
        KeyHierarchy::from_existing(b"password", &sealed, &[9u8; 16], light()),
        Err(CryptoError::MekDecryptionFailed)
    ));
    assert!(matches!(
        KeyHierarchy::from_existing(b"password", &sealed, &[5u8; 4], light()),
        Err(CryptoError::InvalidSaltLength)
    ));
    assert!(matches!(
        KeyHierarchy::from_existing(b"", &sealed, &[5u8; 16], light()),
        Err(CryptoError::InvalidPasswordLength)
    ));
    assert!(matches!(
        KeyHierarchy::from_existing(
            b"password",
            &sealed,
            &[5u8; 16],
            KeyDerivation::unchecked(1, 1, 1)
        ),
        Err(CryptoError::KeyDerivationFailed)
    ));
}

#[test]
fn a_stored_key_of_another_length_is_refused() {
    let short = keys_with_mek(vec![6u8; 16]);
    let master = light().derive_key(b"password", &[5u8; 16]).unwrap();
    let sealed = short.encrypted_mek(master.as_ref()).unwrap();
    assert!(matches!(
        KeyHierarchy::from_existing(b"password", &sealed, &[5u8; 16], light()),
        Err(CryptoError::InvalidKeyLength)
    ));
}

#[test]
fn verifying_the_master_password() {
    let keys = light_keys(b"password", [5u8; 16], [6u8; 32]);
    assert!(keys.verify_master_password(b"password", &[5u8; 16]).unwrap());
    assert!(!keys.verify_master_password(b"wrong", &[5u8; 16]).unwrap());
    assert!(!keys.verify_master_password(b"password", &[4u8; 16]).unwrap());
    assert!(matches!(
        keys.verify_master_password(b"", &[5u8; 16]),
        Err(CryptoError::InvalidPasswordLength)
    ));
    assert!(matches!(
        keys.verify_master_password(b"password", &[5u8; 3]),
        Err(CryptoError::InvalidSaltLength)
    ));
}

#[test]
fn changing_the_master_password() {
    let mut keys = light_keys(b"old password", [5u8; 16], [6u8; 32]);
    let record = keys.encrypt_data(b"kept").unwrap();
    let old_master = keys.master_key.as_ref().clone();

    let new_salt = keys
        .change_master_password(b"old password", b"new password", &[5u8; 16])
        .expect("changed");
    assert_eq!(new_salt.len(), 16);
    assert_ne!(new_salt, vec![5u8; 16]);
    assert_ne!(keys.master_key.as_ref(), &old_master);
    assert_eq!(keys.mek.as_ref().as_slice(), &[6u8; 32]);
    assert!(keys.verify_master_password(b"new password", &new_salt).unwrap());
    assert!(!keys.verify_master_password(b"old password", &new_salt).unwrap());
    assert_eq!(keys.decrypt_data(&record).unwrap(), b"kept");
}

#[test]
fn changing_the_master_password_with_a_given_salt() {
    let mut keys = light_keys(b"old password", [5u8; 16], [6u8; 32]);
    let new_salt = keys
        .change_master_password_with_salt(
            b"old password",
            b"new password",
            &[5u8; 16],
            vec![8u8; 16],
        )
        .expect("changed");
    assert_eq!(new_salt, vec![8u8; 16]);
    let expected = light().derive_key(b"new password", &[8u8; 16]).unwrap();
    assert_eq!(keys.master_key.as_ref(), expected.as_ref());
}

#[test]
fn a_refused_change_of_the_master_key_changes_nothing() {
    let mut keys = light_keys(b"old password", [5u8; 16], [6u8; 32]);
    let master = keys.master_key.as_ref().clone();

    assert!(matches!(
        keys.change_master_password(b"wrong", b"new password", &[5u8; 16]),
        Err(CryptoError::InvalidMasterPassword)
    ));
    assert!(matches!(
        keys.change_master_password(b"old password", b"new password", &[4u8; 16]),
        Err(CryptoError::InvalidMasterPassword)
    ));
    assert!(matches!(
        keys.change_master_password(b"old password", b"", &[5u8; 16]),
        Err(CryptoError::InvalidPasswordLength)
    ));
    assert!(matches!(
        keys.change_master_password_with_salt(
            b"old password",
            b"new password",
            &[5u8; 16],
            vec![8u8; 3]
        ),
        Err(CryptoError::InvalidSaltLength)
    ));
    assert_eq!(keys.master_key.as_ref(), &master);
    assert_eq!(keys.mek.as_ref().as_slice(), &[6u8; 32]);
}

#[test]
fn moving_to_new_settings() {
    let mut keys = light_keys(b"password", [5u8; 16], [6u8; 32]);
    let record = keys.encrypt_data(b"kept").unwrap();
    let heavier = KeyDerivation::new(128, 2, 1).unwrap();

    let (new_salt, sealed) = keys
        .update_key_derivation(b"password", &[5u8; 16], heavier.clone())
        .expect("updated");
    assert_eq!(new_salt.len(), 16);
    assert_eq!(keys.key_derivation, heavier);
    assert_eq!(keys.mek.as_ref().as_slice(), &[6u8; 32]);
    let expected = heavier.derive_key(b"password", &new_salt).unwrap();
    assert_eq!(keys.master_key.as_ref(), expected.as_ref());
    let opened = KeyHierarchy::decrypt_mek_with_key(&sealed, keys.master_key.as_ref()).unwrap();
    assert_eq!(opened, vec![6u8; 32]);
    assert_eq!(keys.decrypt_data(&record).unwrap(), b"kept");
}

#[test]
fn moving_to_new_settings_with_given_material() {
    let mut keys = light_keys(b"password", [5u8; 16], [6u8; 32]);
    let heavier = KeyDerivation::new(128, 2, 1).unwrap();
    let (new_salt, sealed) = keys
        .update_key_derivation_with(
            b"password",
            &[5u8; 16],
            heavier.clone(),
            vec![8u8; 16],
            [9u8; 12],
        )
        .expect("updated");
    assert_eq!(new_salt, vec![8u8; 16]);
    assert_eq!(sealed.nonce(), &[9u8; 12]);
    let expected = keys
        .encrypted_mek_with_nonce(keys.master_key.as_ref(), [9u8; 12])
        .unwrap();
    assert_eq!(sealed.ciphertext(), expected.ciphertext());
    assert_eq!(sealed.tag(), expected.tag());
}

#[test]
fn a_refused_move_changes_nothing() {
    let mut keys = light_keys(b"password", [5u8; 16], [6u8; 32]);
    let master = keys.master_key.as_ref().clone();
    let heavier = KeyDerivation::new(128, 2, 1).unwrap();

    assert!(matches!(
        keys.update_key_derivation(b"wrong", &[5u8; 16], heavier.clone()),
        Err(CryptoError::InvalidMasterPassword)
    ));
    assert!(matches!(
        keys.update_key_derivation(b"password", &[5u8; 16], KeyDerivation::unchecked(4, 1, 1)),
        Err(CryptoError::InvalidMemoryCost)
    ));
    assert!(matches!(
        keys.update_key_derivation(b"password", &[5u8; 16], KeyDerivation::unchecked(64, 0, 1)),
        Err(CryptoError::InvalidTimeCost)
    ));
    assert!(matches!(
        keys.update_key_derivation(b"password", &[5u8; 16], KeyDerivation::unchecked(64, 1, 17)),
        Err(CryptoError::InvalidMemoryCost)
    ));
    assert!(matches!(
        keys.update_key_derivation(
            b"password",
            &[5u8; 16],
            KeyDerivation::unchecked(1024, 1, 17)
        ),
        Err(CryptoError::InvalidParallelism)
    ));
    assert_eq!(keys.master_key.as_ref(), &master);
    assert_eq!(keys.key_derivation, light());
}

#[test]
fn debug_output_shows_no_key() {
    let keys = keys_with_mek(vec![0xABu8; 32]);
    let shown = format!("{:?}", keys);
    assert!(!shown.contains("171"));
    assert!(!shown.to_lowercase().contains("ab, ab"));
    assert!(shown.contains("KeyHierarchy"));
}

#[test]
fn secure_memory_hands_its_value_out() {
    let mut held = SecureMemory::new(vec![1u8, 2, 3]);
    assert_eq!(held.as_ref(), &vec![1u8, 2, 3]);
    held.as_mut().push(4);
    assert_eq!(held.as_ref(), &vec![1u8, 2, 3, 4]);
    assert_eq!(held.into_inner(), vec![1u8, 2, 3, 4]);

    let mut text = SecureMemory::new(String::from("secret"));
    assert_eq!(text.as_ref(), "secret");
    text.as_mut().push('!');
    let shown = format!("{:?}", text);
    assert!(!shown.contains("secret"));
    assert_eq!(text.into_inner(), "secret!");
}
