//! The secret operations: store, fetch and invalidate.
//!
//! Each operation is a single request/response call: it resolves its keyring
//! afresh, performs a bounded number of kernel calls, maps any kernel
//! failure through the error taxonomy, and returns.  Secret bytes that pass
//! through process memory live in a [`SecretBuffer`] whose storage is zeroed
//! on every exit path.

use vstd::prelude::*;

use linux_keyutils::Key;
use linux_keyutils::KeyError;
use linux_keyutils::KeyRing;

use crate::buffer::SecretBuffer;
use crate::buffer::SECRET_BUFFER_CAPACITY;
use crate::errors::kernel_code_of;
use crate::errors::PythonLinuxKeyutilsError;
use crate::keyring::get_ring;
use crate::keyring::KeyRingIdentifier;
use crate::text::decode_secret_text;

verus! {

/// Relies on `linux_keyutils::KeyRing::add_key`: submits `(name, secret)` as
/// a user-type key into the keyring; when a key with this description is
/// already there, its payload is updated in place rather than duplicated.
/// The new key's handle is discarded.  The outcome depends on kernel state,
/// so nothing is promised of it.
#[verifier::external_body]
fn ring_add_key(ring: &KeyRing, name: &str, secret: &[u8]) -> Result<(), KeyError> {
    match ring.add_key(name, secret) {
        Ok(_) => Ok(()),
        Err(err) => Err(err),
    }
}

/// Relies on `linux_keyutils::KeyRing::search`: finds the user-type key
/// whose description matches `name` exactly, searching the keyring tree
/// breadth-first, and returns its handle; an absent key is a kernel error.
/// The outcome depends on kernel state, so nothing is promised of it.
#[verifier::external_body]
fn ring_search(ring: &KeyRing, name: &str) -> Result<Key, KeyError> {
    ring.search(name)
}

/// Relies on `linux_keyutils::Key::invalidate`: marks the key for garbage
/// collection by the kernel, which removes it eventually rather than
/// instantaneously.  The outcome depends on kernel state, so nothing is
/// promised of it.
#[verifier::external_body]
fn key_invalidate(key: &Key) -> Result<(), KeyError> {
    key.invalidate()
}

/// The creation flag an operation passes to the resolver: the one given, or
/// false when none is given — storing never creates a keyring unless the
/// caller asks for it explicitly.
pub fn effective_create(create: Option<bool>) -> (r: bool)
    ensures
        r == (create is Some && create->0),
{
    match create {
        Some(value) => value,
        None => false,
    }
}

/// Store `secret` under `name` in the selected keyring, the session keyring
/// when none is given.  The keyring is created first only when `create`
/// says so; it defaults to false.  A key already stored under `name` has
/// its payload updated rather than duplicated.  A secret longer than the
/// fixed buffer capacity is rejected at this boundary as invalid, never
/// truncated.  Any error is a kernel-originated category, never the
/// text-decoding one.
pub fn set_secret(
    name: &str,
    secret: &[u8],
    key_ring: Option<&KeyRingIdentifier>,
    create: Option<bool>,
) -> (r: Result<(), PythonLinuxKeyutilsError>)
    ensures
        secret@.len() > SECRET_BUFFER_CAPACITY ==> r == Err::<
            (),
            PythonLinuxKeyutilsError,
        >(PythonLinuxKeyutilsError::InvalidArguments),
        r is Err ==> r->Err_0 != PythonLinuxKeyutilsError::UTF8Error,
{
    if secret.len() > SECRET_BUFFER_CAPACITY {
        return Err(PythonLinuxKeyutilsError::InvalidArguments);
    }
    let create_flag = effective_create(create);
    let ring = match get_ring(key_ring, create_flag) {
        Ok(ring) => ring,
        Err(category) => {
            return Err(category);
        },
    };
    match ring_add_key(&ring, name, secret) {
        Ok(()) => Ok(()),
        Err(err) => Err(PythonLinuxKeyutilsError::from_kernel_code(kernel_code_of(err))),
    }
}

/// The decision after a kernel read: a reported payload length within the
/// buffer's capacity yields exactly that prefix of the buffer as the
/// secret's owned copy, while a length beyond the capacity is a broken
/// expectation on the kernel primitive and is fatal to the call — reported
/// as the catch-all category, never silently truncated.
pub fn payload_from_read(buf: &SecretBuffer, length: usize) -> (r: Result<
    Vec<u8>,
    PythonLinuxKeyutilsError,
>)
    requires
        buf.wf(),
    ensures
        length > SECRET_BUFFER_CAPACITY ==> r == Err::<
            Vec<u8>,
            PythonLinuxKeyutilsError,
        >(PythonLinuxKeyutilsError::Unknown),
        length <= SECRET_BUFFER_CAPACITY ==> r is Ok && r->Ok_0@ == buf.spec_bytes().subrange(
            0,
            length as int,
        ),
{
    if length > SECRET_BUFFER_CAPACITY {
        return Err(PythonLinuxKeyutilsError::Unknown);
    }
    Ok(buf.copy_prefix(length))
}

/// Fetch the secret stored under `name`, reading its payload through the
/// caller's buffer.  On every exit path — success, kernel failure, or a
/// payload longer than the buffer — the buffer's whole backing storage is
/// left zeroed.  The outcome for the reported read length is decided by
/// [`payload_from_read`]: the exact prefix when it fits, fatal and never
/// truncated when it does not.  No error is ever the text-decoding category.
pub fn fetch_secret_into(
    buf: &mut SecretBuffer,
    name: &str,
    key_ring: Option<&KeyRingIdentifier>,
) -> (r: Result<Vec<u8>, PythonLinuxKeyutilsError>)
    requires
        old(buf).wf(),
    ensures
        final(buf).wf(),
        final(buf).all_zero(),
        r is Ok ==> r->Ok_0@.len() <= SECRET_BUFFER_CAPACITY,
        r is Err ==> r->Err_0 != PythonLinuxKeyutilsError::UTF8Error,
{
    let ring = match get_ring(key_ring, false) {
        Ok(ring) => ring,
        Err(category) => {
            buf.wipe();
            return Err(category);
        },
    };
    let key = match ring_search(&ring, name) {
        Ok(key) => key,
        Err(err) => {
            buf.wipe();
            return Err(PythonLinuxKeyutilsError::from_kernel_code(kernel_code_of(err)));
        },
    };
    let length: usize = match buf.read_from_key(&key) {
        Ok(length) => length,
        Err(err) => {
            buf.wipe();
            return Err(PythonLinuxKeyutilsError::from_kernel_code(kernel_code_of(err)));
        },
    };
    let payload = payload_from_read(buf, length);
    buf.wipe();
    payload
}

/// Fetch the secret stored under `name` from the selected keyring, the
/// session keyring when none is given, as an independent owned copy of at
/// most the fixed buffer capacity.  The internal buffer is zeroed before
/// the call returns, on every path.  No error is ever the text-decoding
/// category.
pub fn get_secret(name: &str, key_ring: Option<&KeyRingIdentifier>) -> (r: Result<
    Vec<u8>,
    PythonLinuxKeyutilsError,
>)
    ensures
        r is Ok ==> r->Ok_0@.len() <= SECRET_BUFFER_CAPACITY,
        r is Err ==> r->Err_0 != PythonLinuxKeyutilsError::UTF8Error,
{
    let mut buf = SecretBuffer::new();
    fetch_secret_into(&mut buf, name, key_ring)
}

/// Invalidate the key stored under `name` in the selected keyring, the
/// session keyring when none is given.  The kernel schedules the key for
/// removal; it becomes unreadable eventually, not necessarily at once.  No
/// error is ever the text-decoding category.
pub fn invalidate_secret(name: &str, key_ring: Option<&KeyRingIdentifier>) -> (r: Result<
    (),
    PythonLinuxKeyutilsError,
>)
    ensures
        r is Err ==> r->Err_0 != PythonLinuxKeyutilsError::UTF8Error,
{
    let ring = match get_ring(key_ring, false) {
        Ok(ring) => ring,
        Err(category) => {
            return Err(category);
        },
    };
    let key = match ring_search(&ring, name) {
        Ok(key) => key,
        Err(err) => {
            return Err(PythonLinuxKeyutilsError::from_kernel_code(kernel_code_of(err)));
        },
    };
    match key_invalidate(&key) {
        Ok(()) => Ok(()),
        Err(err) => Err(PythonLinuxKeyutilsError::from_kernel_code(kernel_code_of(err))),
    }
}

/// Store a text secret under `name` in the session keyring.  The stored
/// bytes are the text's UTF-8 encoding; text whose encoding exceeds the
/// fixed buffer capacity is rejected as invalid.
pub fn set_session_secret(name: &str, secret: &str) -> (r: Result<(), PythonLinuxKeyutilsError>)
    ensures
        vstd::utf8::encode_utf8(secret@).len() > SECRET_BUFFER_CAPACITY ==> r == Err::<
            (),
            PythonLinuxKeyutilsError,
        >(PythonLinuxKeyutilsError::InvalidArguments),
        r is Err ==> r->Err_0 != PythonLinuxKeyutilsError::UTF8Error,
{
    set_secret(name, secret.as_bytes(), None, None)
}

/// Fetch the secret stored under `name` in the session keyring and
/// interpret it as UTF-8 text.  The buffer discipline of a byte fetch is
/// followed first; only the returned copy is decoded, and a decode failure
/// is the text-decoding category.  Any returned text is the decoding of
/// some valid byte string of at most the fixed buffer capacity.
pub fn get_session_secret(name: &str) -> (r: Result<String, PythonLinuxKeyutilsError>)
    ensures
        r is Ok ==> exists|bytes: Seq<u8>|
            bytes.len() <= SECRET_BUFFER_CAPACITY && #[trigger] vstd::utf8::valid_utf8(bytes)
                && r->Ok_0@ == vstd::utf8::decode_utf8(bytes),
{
    match get_secret(name, None) {
        Ok(secret) => {
            let ghost fetched: Seq<u8> = secret@;
            let text = decode_secret_text(secret)?;
            proof {
                assert(vstd::utf8::valid_utf8(fetched));
            }
            Ok(text)
        },
        Err(category) => Err(category),
    }
}

/// Invalidate the key stored under `name` in the session keyring.
pub fn invalidate_session_secret(name: &str) -> (r: Result<(), PythonLinuxKeyutilsError>)
    ensures
        r is Err ==> r->Err_0 != PythonLinuxKeyutilsError::UTF8Error,
{
    invalidate_secret(name, None)
}

} // verus!
