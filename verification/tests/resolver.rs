use python_linux_keyutils::get_ring;
use python_linux_keyutils::KeyRingIdentifier;
use python_linux_keyutils::PythonLinuxKeyutilsError;

#[test]
fn the_kernel_backed_special_keyrings_resolve_with_create() {
    let creatable = [
        KeyRingIdentifier::Thread,
        KeyRingIdentifier::Process,
        KeyRingIdentifier::Session,
        KeyRingIdentifier::User,
        KeyRingIdentifier::UserSession,
    ];
    for id in creatable {
        assert!(get_ring(Some(&id), true).is_ok());
    }
}

#[test]
fn an_absent_keyring_fails_without_create_and_resolves_with_it() {
    // The test harness runs this function on a thread of its own, which
    // starts with no thread keyring.
    let thread = KeyRingIdentifier::Thread;
    let absent = get_ring(Some(&thread), false);
    // The kernel signals the absence with its generic no-key errno, which
    // the taxonomy surfaces as KeyDoesNotExist.
    assert_eq!(absent.err(), Some(PythonLinuxKeyutilsError::KeyDoesNotExist));
    assert!(get_ring(Some(&thread), true).is_ok());
    assert!(get_ring(Some(&thread), false).is_ok());
}

#[test]
fn resolving_without_an_identifier_uses_the_session_keyring() {
    assert!(get_ring(None, false).is_ok());
    assert!(get_ring(None, true).is_ok());
}
