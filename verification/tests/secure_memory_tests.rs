use password_manager_backend::crypto::SecureMemory;

#[test]
fn a_secret_is_shown_as_a_placeholder() {
    let secret = SecureMemory::new("hunter2-hunter2".to_string());
    assert_eq!(secret.redacted(), "SecureMemory { data: \"[REDACTED]\" }");
    let bytes = SecureMemory::new(vec![0xABu8, 0xCD, 0xEF]);
    assert_eq!(bytes.redacted(), "SecureMemory { data: \"[REDACTED]\" }");
}

#[test]
fn the_debug_form_of_a_secret_shows_no_content() {
    let secret = SecureMemory::new("hunter2-hunter2".to_string());
    let shown = format!("{:?}", secret);
    assert!(shown.starts_with("SecureMemory"));
    assert!(!shown.contains("hunter2"));
    let bytes = SecureMemory::new(vec![171u8, 205, 239]);
    let shown = format!("{:?}", bytes);
    assert!(!shown.contains("171"));
    assert!(!shown.contains("205"));
    assert!(!shown.contains("239"));
}

#[test]
fn a_secret_is_read_written_and_handed_out() {
    let mut secret = SecureMemory::new(vec![1u8, 2, 3]);
    assert_eq!(secret.as_ref(), &vec![1u8, 2, 3]);
    secret.as_mut().push(4);
    assert_eq!(secret.as_ref(), &vec![1u8, 2, 3, 4]);
    assert_eq!(secret.into_inner(), vec![1u8, 2, 3, 4]);
}
