use python_linux_keyutils::fetch_secret_into;
use python_linux_keyutils::get_secret;
use python_linux_keyutils::get_session_secret;
use python_linux_keyutils::invalidate_secret;
use python_linux_keyutils::set_secret;
use python_linux_keyutils::set_session_secret;
use python_linux_keyutils::KeyRingIdentifier;
use python_linux_keyutils::PythonLinuxKeyutilsError;
use python_linux_keyutils::SecretBuffer;
use python_linux_keyutils::SECRET_BUFFER_CAPACITY;

fn fails_as_gone(r: Result<Vec<u8>, PythonLinuxKeyutilsError>) -> bool {
    r == Err(PythonLinuxKeyutilsError::KeyDoesNotExist)
        || r == Err(PythonLinuxKeyutilsError::KeyRevoked)
}

#[test]
fn store_fetch_invalidate_scenario() {
    let session = KeyRingIdentifier::Session;
    let stored = set_secret("svc-token", b"abc123", Some(&session), Some(false));
    assert_eq!(stored, Ok(()));
    let fetched = get_secret("svc-token", Some(&session));
    assert_eq!(fetched, Ok(b"abc123".to_vec()));
    let invalidated = invalidate_secret("svc-token", Some(&session));
    assert_eq!(invalidated, Ok(()));
    let gone = get_secret("svc-token", Some(&session));
    assert!(fails_as_gone(gone));
}

#[test]
fn fetch_of_a_name_never_stored_fails_with_key_does_not_exist() {
    let r = get_secret("nonexistent", Some(&KeyRingIdentifier::Session));
    assert_eq!(r, Err(PythonLinuxKeyutilsError::KeyDoesNotExist));
}

#[test]
fn round_trip_returns_the_stored_bytes_exactly() {
    let secret: Vec<u8> = (0u32..512).map(|i| (i * 7 % 256) as u8).collect();
    assert_eq!(set_secret("session-ops-round-trip", &secret, None, Some(true)), Ok(()));
    assert_eq!(get_secret("session-ops-round-trip", None), Ok(secret));
}

#[test]
fn round_trip_at_full_capacity() {
    let secret = vec![0xa7u8; SECRET_BUFFER_CAPACITY];
    assert_eq!(set_secret("session-ops-full-cap", &secret, None, Some(true)), Ok(()));
    assert_eq!(get_secret("session-ops-full-cap", None), Ok(secret));
}

#[test]
fn storing_twice_updates_the_payload() {
    assert_eq!(set_secret("session-ops-updated", b"first payload", None, Some(true)), Ok(()));
    assert_eq!(set_secret("session-ops-updated", b"second payload", None, Some(true)), Ok(()));
    assert_eq!(get_secret("session-ops-updated", None), Ok(b"second payload".to_vec()));
}

#[test]
fn an_invalidated_key_becomes_unavailable() {
    assert_eq!(set_secret("session-ops-invalidated", b"short-lived", None, Some(true)), Ok(()));
    assert_eq!(get_secret("session-ops-invalidated", None), Ok(b"short-lived".to_vec()));
    assert_eq!(invalidate_secret("session-ops-invalidated", None), Ok(()));
    let mut gone = get_secret("session-ops-invalidated", None);
    for _ in 0..1000 {
        if gone.is_err() {
            break;
        }
        gone = get_secret("session-ops-invalidated", None);
    }
    assert!(fails_as_gone(gone));
}

#[test]
fn session_text_round_trip() {
    assert_eq!(set_session_secret("session-ops-text", "ein Geheimnis"), Ok(()));
    assert_eq!(get_session_secret("session-ops-text"), Ok("ein Geheimnis".to_string()));
}

#[test]
fn a_non_utf8_secret_fails_with_the_utf8_category() {
    assert_eq!(set_secret("session-ops-not-text", &[0xc3, 0x28, 0xff], None, Some(true)), Ok(()));
    assert_eq!(
        get_session_secret("session-ops-not-text"),
        Err(PythonLinuxKeyutilsError::UTF8Error)
    );
}

#[test]
fn the_buffer_is_zeroed_after_a_successful_fetch() {
    assert_eq!(set_secret("session-ops-wiped", b"plenty of nonzero bytes", None, Some(true)), Ok(()));
    let mut buf = SecretBuffer::new();
    let fetched = fetch_secret_into(&mut buf, "session-ops-wiped", None);
    assert_eq!(fetched, Ok(b"plenty of nonzero bytes".to_vec()));
    assert!(buf.check_all_zero());
}

#[test]
fn the_buffer_is_zeroed_after_a_failed_fetch() {
    assert_eq!(set_secret("session-ops-wiped-too", b"filled before the failure", None, Some(true)), Ok(()));
    let mut buf = SecretBuffer::new();
    let filled = fetch_secret_into(&mut buf, "session-ops-wiped-too", None);
    assert!(filled.is_ok());
    let missing = fetch_secret_into(&mut buf, "nonexistent", None);
    assert_eq!(missing, Err(PythonLinuxKeyutilsError::KeyDoesNotExist));
    assert!(buf.check_all_zero());
}
