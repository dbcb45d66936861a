use python_linux_keyutils::effective_create;
use python_linux_keyutils::effective_identifier;
use python_linux_keyutils::payload_from_read;
use python_linux_keyutils::KeyRingIdentifier;
use python_linux_keyutils::PythonLinuxKeyutilsError;
use python_linux_keyutils::SecretBuffer;
use python_linux_keyutils::SECRET_BUFFER_CAPACITY;

#[test]
fn an_absent_identifier_defaults_to_the_session_keyring() {
    assert_eq!(effective_identifier(None), KeyRingIdentifier::Session);
    assert_eq!(
        effective_identifier(Some(&KeyRingIdentifier::User)),
        KeyRingIdentifier::User
    );
    assert_eq!(
        effective_identifier(Some(&KeyRingIdentifier::Thread)),
        KeyRingIdentifier::Thread
    );
}

#[test]
fn an_absent_create_flag_defaults_to_false() {
    assert!(!effective_create(None));
    assert!(!effective_create(Some(false)));
    assert!(effective_create(Some(true)));
}

#[test]
fn a_reported_length_within_capacity_yields_exactly_that_prefix() {
    let buf = SecretBuffer::new();
    assert_eq!(payload_from_read(&buf, 0), Ok(Vec::new()));
    assert_eq!(payload_from_read(&buf, 7), Ok(vec![0u8; 7]));
    assert_eq!(
        payload_from_read(&buf, SECRET_BUFFER_CAPACITY),
        Ok(vec![0u8; SECRET_BUFFER_CAPACITY])
    );
}

#[test]
fn a_reported_length_beyond_capacity_is_fatal_never_truncated() {
    let buf = SecretBuffer::new();
    assert_eq!(
        payload_from_read(&buf, SECRET_BUFFER_CAPACITY + 1),
        Err(PythonLinuxKeyutilsError::Unknown)
    );
    assert_eq!(
        payload_from_read(&buf, usize::MAX),
        Err(PythonLinuxKeyutilsError::Unknown)
    );
}
