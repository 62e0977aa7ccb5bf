use password_manager_backend::auth::auth_service::AuthService;
use password_manager_backend::crypto::SecureMemory;
use password_manager_backend::error::auth_error::AuthError;

fn create_test_password(password: &str) -> SecureMemory<String> {
    SecureMemory::new(password.to_string())
}

/// A new vault comes with working keys, and its password verifies at once.
#[test]
fn test_new_creation() {
    let password = create_test_password("test_password123!");

    let (auth_service, key_hierarchy) =
        AuthService::new(password).expect("Should create new _vault");

    let password = create_test_password("test_password123!");
    assert!(auth_service
        .verify_master_password(password)
        .expect("Password verification should succeed"));
    assert!(key_hierarchy
        .encrypted_mek(&auth_service.master_password_hash())
        .is_ok());
}

/// Another password does not verify.
#[test]
fn test_wrong_password_verification() {
    let correct_password = create_test_password("correct_password123!");
    let wrong_password = create_test_password("wrong_password123!");

    let (auth_service, _) =
        AuthService::new(correct_password).expect("Should create new _vault");

    assert!(!auth_service
        .verify_master_password(wrong_password)
        .expect("Verification should return false"));
}

/// Dropping the keys locks the vault; only the right password unlocks it.
#[test]
fn test_lock_unlock_cycle() {
    let password = create_test_password("test_password123!");
    let wrong_password = create_test_password("wrong_password123!");

    let (mut auth_service, key_hierarchy) =
        AuthService::new(password).expect("Should create new _vault");

    drop(key_hierarchy);

    let unlock_result = auth_service.unlock(wrong_password);
    assert!(matches!(unlock_result, Err(AuthError::InvalidPassword)));

    let password = create_test_password("test_password123!");
    let unlock_result = auth_service.unlock(password);
    assert!(unlock_result.is_ok());
}

/// After a change the old password no longer verifies and the new one does.
#[test]
fn test_password_change() {
    let old_password = create_test_password("old_password123!");
    let new_password = create_test_password("new_password123!");

    let (mut auth_service, _) =
        AuthService::new(old_password).expect("Should create new _vault");

    let old_password = create_test_password("old_password123!");

    auth_service
        .change_password(old_password, new_password)
        .expect("Password change should succeed");

    let old_password = create_test_password("old_password123!");
    assert!(!auth_service
        .verify_master_password(old_password)
        .expect("Verification should return false"));

    let new_password = create_test_password("new_password123!");
    assert!(auth_service
        .verify_master_password(new_password)
        .expect("New password should verify"));
}

/// A locked vault gives nothing away to a password that is not its own: the
/// change is refused and the stored state stays.
#[test]
fn test_locked_vault_restrictions() {
    let password = create_test_password("test_password123!");

    let (mut auth_service, key_hierarchy) =
        AuthService::new(password).expect("Should create new _vault");

    drop(key_hierarchy);
    let hash_before = auth_service.master_password_hash().to_vec();
    let salt_before = auth_service.salt().to_vec();

    let change_result =
        auth_service.change_password(create_test_password("old"), create_test_password("new"));
    assert!(matches!(change_result, Err(AuthError::InvalidPassword)));
    assert_eq!(auth_service.master_password_hash(), hash_before.as_slice());
    assert_eq!(auth_service.salt(), salt_before.as_slice());
}

/// Data sealed once stays readable across lock and unlock and across a
/// change of password.
#[test]
fn test_key_hierarchy_consistency() {
    let password = create_test_password("test_password123!");
    let new_password = create_test_password("new_password123!");

    let (mut auth_service, initial_hierarchy) =
        AuthService::new(password).expect("Should create new _vault");

    let test_data = b"test data";
    let encrypted = initial_hierarchy
        .encrypt_data(test_data)
        .expect("Should encrypt data");

    let password = create_test_password("test_password123!");

    drop(initial_hierarchy);
    let unlocked_hierarchy = auth_service.unlock(password).expect("Should unlock");

    let decrypted = unlocked_hierarchy
        .decrypt_data(&encrypted)
        .expect("Should decrypt data");
    assert_eq!(decrypted, test_data);

    let password = create_test_password("test_password123!");
    auth_service
        .change_password(password, new_password)
        .expect("Should change password");

    let new_password = create_test_password("new_password123!");
    drop(unlocked_hierarchy);
    let final_hierarchy = auth_service
        .unlock(new_password)
        .expect("Should unlock with new password");

    let decrypted = final_hierarchy
        .decrypt_data(&encrypted)
        .expect("Should decrypt data");
    assert_eq!(decrypted, test_data);
}
