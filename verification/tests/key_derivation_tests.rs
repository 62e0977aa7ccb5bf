use password_manager_backend::crypto::key_derivation::recommended_parallelism_for;
use password_manager_backend::crypto::KeyDerivation;
use password_manager_backend::crypto::{
    KEY_LENGTH, MAX_MEMORY_COST, MAX_PARALLELISM, MAX_TIME_COST, RECOMMENDED_MEMORY_COST,
    RECOMMENDED_TIME_COST, SALT_LENGTH,
};
use password_manager_backend::error::crypto_error::CryptoError;

fn light() -> KeyDerivation {
    KeyDerivation::new(64, 1, 1).expect("light settings are valid")
}

const SALT: [u8; 16] = [7u8; 16];

#[test]
fn valid_parameters_are_kept() {
    let kdf = KeyDerivation::new(16384, 2, 1).expect("valid");
    assert_eq!(kdf.memory_cost(), 16384);
    assert_eq!(kdf.time_cost(), 2);
    assert_eq!(kdf.parallelism(), 1);
    assert!(kdf.validate().is_ok());
}

#[test]
fn limits_are_inclusive() {
    assert!(KeyDerivation::new(8, 1, 1).is_ok());
    assert!(KeyDerivation::new(MAX_MEMORY_COST, MAX_TIME_COST, MAX_PARALLELISM).is_ok());
    assert!(KeyDerivation::new(128, 1, 16).is_ok());
}

#[test]
fn memory_under_eight_per_lane_is_refused() {
    assert!(matches!(KeyDerivation::new(8, 1, 2), Err(CryptoError::InvalidMemoryCost)));
    assert!(matches!(KeyDerivation::new(7, 1, 1), Err(CryptoError::InvalidMemoryCost)));
    assert!(matches!(KeyDerivation::new(127, 1, 16), Err(CryptoError::InvalidMemoryCost)));
}

#[test]
fn memory_over_the_cap_is_refused() {
    assert!(matches!(
        KeyDerivation::new(MAX_MEMORY_COST + 1, 1, 1),
        Err(CryptoError::InvalidMemoryCost)
    ));
}

#[test]
fn time_cost_outside_its_range_is_refused() {
    assert!(matches!(KeyDerivation::new(16384, 0, 1), Err(CryptoError::InvalidTimeCost)));
    assert!(matches!(
        KeyDerivation::new(16384, MAX_TIME_COST + 1, 1),
        Err(CryptoError::InvalidTimeCost)
    ));
}

#[test]
fn parallelism_outside_its_range_is_refused() {
    assert!(matches!(KeyDerivation::new(16384, 1, 0), Err(CryptoError::InvalidParallelism)));
    assert!(matches!(
        KeyDerivation::new(16384, 1, MAX_PARALLELISM + 1),
        Err(CryptoError::InvalidParallelism)
    ));
}

#[test]
fn memory_is_judged_before_the_lanes() {
    assert!(matches!(
        KeyDerivation::new(16384, 1, u32::MAX),
        Err(CryptoError::InvalidMemoryCost)
    ));
    assert!(matches!(
        KeyDerivation::new(u32::MAX, 0, 0),
        Err(CryptoError::InvalidMemoryCost)
    ));
    assert!(matches!(KeyDerivation::new(16384, 0, 0), Err(CryptoError::InvalidTimeCost)));
}

#[test]
fn unchecked_settings_fail_validation_later() {
    let kdf = KeyDerivation::unchecked(4, 1, 1);
    assert_eq!(kdf.memory_cost(), 4);
    assert!(matches!(kdf.validate(), Err(CryptoError::InvalidMemoryCost)));
}

#[test]
fn default_parameters() {
    let kdf = KeyDerivation::default();
    assert_eq!(kdf.memory_cost(), RECOMMENDED_MEMORY_COST);
    assert_eq!(kdf.memory_cost(), 46_080);
    assert_eq!(kdf.time_cost(), RECOMMENDED_TIME_COST);
    assert_eq!(kdf.time_cost(), 1);
    assert!(kdf.parallelism() >= 1 && kdf.parallelism() <= 4);
    assert!(kdf.validate().is_ok());
}

#[test]
fn recommended_parallelism_is_clamped() {
    assert_eq!(recommended_parallelism_for(0), 1);
    assert_eq!(recommended_parallelism_for(1), 1);
    assert_eq!(recommended_parallelism_for(3), 3);
    assert_eq!(recommended_parallelism_for(4), 4);
    assert_eq!(recommended_parallelism_for(5), 4);
    assert_eq!(recommended_parallelism_for(64), 4);
}

#[test]
fn settings_compare_by_their_costs() {
    assert_eq!(light(), KeyDerivation::unchecked(64, 1, 1));
    assert_ne!(light(), KeyDerivation::unchecked(64, 2, 1));
    assert_eq!(light().clone(), light());
}

#[test]
fn salt_generation() {
    let kdf = light();
    let first = kdf.generate_salt().expect("salt");
    let second = kdf.generate_salt().expect("salt");
    assert_eq!(first.len(), SALT_LENGTH);
    assert_eq!(first.len(), 16);
    assert_ne!(first, second);
}

#[test]
fn salt_validation() {
    let kdf = light();
    assert!(kdf.validate_salt(&[0u8; 16]).is_ok());
    assert!(matches!(kdf.validate_salt(&[0u8; 15]), Err(CryptoError::InvalidSaltLength)));
    assert!(matches!(kdf.validate_salt(&[0u8; 17]), Err(CryptoError::InvalidSaltLength)));
    assert!(matches!(kdf.validate_salt(&[]), Err(CryptoError::InvalidSaltLength)));
}

#[test]
fn empty_password_is_refused() {
    assert!(matches!(
        light().derive_key(b"", &SALT),
        Err(CryptoError::InvalidPasswordLength)
    ));
    // The password is judged before the salt.
    assert!(matches!(
        light().derive_key(b"", &[0u8; 3]),
        Err(CryptoError::InvalidPasswordLength)
    ));
}

#[test]
fn salt_of_another_length_is_refused() {
    assert!(matches!(
        light().derive_key(b"password", &[0u8; 8]),
        Err(CryptoError::InvalidSaltLength)
    ));
    assert!(matches!(
        light().derive_key_with_context(b"password", &[0u8; 32], b"context"),
        Err(CryptoError::InvalidSaltLength)
    ));
}

#[test]
fn derivation_is_deterministic() {
    let first = light().derive_key(b"password", &SALT).expect("key");
    let second = light().derive_key(b"password", &SALT).expect("key");
    assert_eq!(first.as_ref(), second.as_ref());
    assert_eq!(first.as_ref().len(), KEY_LENGTH);
    assert_eq!(first.as_ref().len(), 32);
}

#[test]
fn derived_key_is_not_its_input() {
    let password = [9u8; 32];
    let key = light().derive_key(&password, &SALT).expect("key");
    assert_ne!(key.as_ref().as_slice(), &password[..]);
    assert_ne!(key.as_ref().as_slice(), &[0u8; 32][..]);
}

#[test]
fn each_input_changes_the_key() {
    let base = light().derive_key(b"password", &SALT).expect("key");
    let other_password = light().derive_key(b"passwore", &SALT).expect("key");
    let other_salt = light().derive_key(b"password", &[8u8; 16]).expect("key");
    let other_memory = KeyDerivation::new(72, 1, 1)
        .unwrap()
        .derive_key(b"password", &SALT)
        .expect("key");
    let other_time = KeyDerivation::new(64, 2, 1)
        .unwrap()
        .derive_key(b"password", &SALT)
        .expect("key");
    let other_lanes = KeyDerivation::new(64, 1, 2)
        .unwrap()
        .derive_key(b"password", &SALT)
        .expect("key");
    assert_ne!(base.as_ref(), other_password.as_ref());
    assert_ne!(base.as_ref(), other_salt.as_ref());
    assert_ne!(base.as_ref(), other_memory.as_ref());
    assert_ne!(base.as_ref(), other_time.as_ref());
    assert_ne!(base.as_ref(), other_lanes.as_ref());
}

#[test]
fn unicode_password_derives() {
    let key = light().derive_key("пароль密码🔑".as_bytes(), &SALT).expect("key");
    assert_eq!(key.as_ref().len(), 32);
}

#[test]
fn costs_that_argon2_refuses_fail_the_derivation() {
    let kdf = KeyDerivation::unchecked(4, 1, 1);
    assert!(matches!(
        kdf.derive_key(b"password", &SALT),
        Err(CryptoError::KeyDerivationFailed)
    ));
    let kdf = KeyDerivation::unchecked(64, 1, u32::MAX);
    assert!(matches!(
        kdf.derive_key(b"password", &SALT),
        Err(CryptoError::KeyDerivationFailed)
    ));
}

#[test]
fn costs_over_our_caps_still_derive() {
    // 51 passes are more than validation allows, yet Argon2 takes them.
    let kdf = KeyDerivation::unchecked(8, 51, 1);
    assert!(kdf.validate().is_err());
    assert!(kdf.derive_key(b"password", &SALT).is_ok());
}

#[test]
fn context_separates_domains() {
    let plain = light().derive_key(b"password", &SALT).expect("key");
    let first = light()
        .derive_key_with_context(b"password", &SALT, b"domain one")
        .expect("key");
    let again = light()
        .derive_key_with_context(b"password", &SALT, b"domain one")
        .expect("key");
    let second = light()
        .derive_key_with_context(b"password", &SALT, b"domain two")
        .expect("key");
    assert_eq!(first.as_ref(), again.as_ref());
    assert_ne!(first.as_ref(), second.as_ref());
    assert_ne!(first.as_ref(), plain.as_ref());
    assert_eq!(first.as_ref().len(), 32);
}

#[test]
fn empty_context_is_no_context() {
    let plain = light().derive_key(b"password", &SALT).expect("key");
    let keyed = light()
        .derive_key_with_context(b"password", &SALT, b"")
        .expect("key");
    assert_eq!(plain.as_ref(), keyed.as_ref());
}

#[test]
fn context_derivation_refuses_an_empty_password() {
    assert!(matches!(
        light().derive_key_with_context(b"", &SALT, b"context"),
        Err(CryptoError::InvalidPasswordLength)
    ));
    assert!(matches!(
        light().derive_key_with_context(b"", &[0u8; 3], b"context"),
        Err(CryptoError::InvalidPasswordLength)
    ));
}

fn refusal(kdf: KeyDerivation) -> String {
    match kdf.derive_key_with_context(b"password", &SALT, b"context") {
        Err(CryptoError::Argon2Error(text)) => text,
        Err(other) => panic!("another error: {:?}", other),
        Ok(_) => panic!("derived a key"),
    }
}

#[test]
fn context_derivation_reports_refused_costs_in_words() {
    assert_eq!(refusal(KeyDerivation::unchecked(4, 1, 1)), "memory cost is too small");
    assert_eq!(refusal(KeyDerivation::unchecked(15, 1, 2)), "memory cost is too small");
    assert_eq!(refusal(KeyDerivation::unchecked(64, 0, 1)), "time cost is too small");
    assert_eq!(refusal(KeyDerivation::unchecked(64, 1, 0)), "not enough threads");
    assert_eq!(
        refusal(KeyDerivation::unchecked(0x0800_0000, 1, 0x0100_0000)),
        "too many threads"
    );
    assert_eq!(
        refusal(KeyDerivation::unchecked(u32::MAX, 1, 0x2000_0000)),
        "memory cost is too small"
    );
    assert_eq!(
        refusal(KeyDerivation::unchecked(64, 1, u32::MAX)),
        "memory cost is too small"
    );
}
