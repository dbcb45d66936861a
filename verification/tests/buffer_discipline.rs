use python_linux_keyutils::PythonLinuxKeyutilsError;
use python_linux_keyutils::SecretBuffer;
use python_linux_keyutils::set_secret;
use python_linux_keyutils::SECRET_BUFFER_CAPACITY;

#[test]
fn a_fresh_buffer_is_zeroed() {
    let buf = SecretBuffer::new();
    assert!(buf.check_all_zero());
}

#[test]
fn copy_prefix_copies_the_requested_length() {
    let buf = SecretBuffer::new();
    let prefix = buf.copy_prefix(16);
    assert_eq!(prefix, vec![0u8; 16]);
    let full = buf.copy_prefix(SECRET_BUFFER_CAPACITY);
    assert_eq!(full.len(), SECRET_BUFFER_CAPACITY);
    assert!(full.iter().all(|b| *b == 0));
}

#[test]
fn an_oversized_secret_is_rejected_at_the_boundary() {
    let oversized = vec![0u8; SECRET_BUFFER_CAPACITY + 1];
    let r = set_secret("x", &oversized, None, None);
    assert_eq!(r, Err(PythonLinuxKeyutilsError::InvalidArguments));
}

#[test]
fn a_secret_of_exactly_the_capacity_is_not_rejected_at_the_boundary() {
    let at_cap = vec![0x5au8; SECRET_BUFFER_CAPACITY];
    let r = set_secret("buffer-discipline-at-cap", &at_cap, None, Some(true));
    assert!(r != Err(PythonLinuxKeyutilsError::InvalidArguments));
}
