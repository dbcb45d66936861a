//! The keyring resolver.
//!
//! A caller selects a keyring by one of seven logical identifiers; resolving
//! turns that selector into a kernel keyring handle, optionally creating the
//! keyring on demand.  Handles are transient: every operation re-resolves,
//! and none is ever cached across calls.

use vstd::prelude::*;

use linux_keyutils::Key;
use linux_keyutils::KeyError;
use linux_keyutils::KeyRing;

use crate::errors::kernel_code_of;
use crate::errors::PythonLinuxKeyutilsError;

verus! {

/// The logical keyring selectors: exactly the seven special keyring scopes
/// the kernel resolves without a numeric ID.  Operations default to
/// [`KeyRingIdentifier::Session`] when a caller supplies none.
#[derive(Clone, Copy, Debug, PartialEq, Eq, Structural)]
pub enum KeyRingIdentifier {
    /// The thread-specific keyring.
    Thread,
    /// The process-specific keyring.
    Process,
    /// The session-specific keyring, the default scope.
    Session,
    /// The UID-specific keyring.
    User,
    /// The UID-session keyring.
    UserSession,
    /// The GID-specific keyring.
    Group,
    /// The assumed request-key authorization keyring.
    ReqKeyAuthKey,
}

/// Declares the kernel keyring handle type of the key-management crate.  A
/// value of it is an opaque reference to a kernel-resident keyring, owned
/// transiently by a single operation.
#[verifier::external_type_specification]
#[verifier::external_body]
pub struct ExKeyRing(KeyRing);

/// Declares the kernel key handle type of the key-management crate: an
/// opaque reference to one named key inside a keyring.
#[verifier::external_type_specification]
#[verifier::external_body]
pub struct ExKey(Key);

/// Relies on `linux_keyutils::KeyRing::from_special_id`: resolves the given
/// special keyring identifier to the keyring's kernel handle, creating the
/// keyring first when `create` is true and it does not yet exist, and
/// failing when `create` is false and it is absent.  The outcome depends on
/// kernel state, so nothing is promised of it.
#[verifier::external_body]
fn ring_from_special_id(id: &KeyRingIdentifier, create: bool) -> Result<KeyRing, KeyError> {
    let kernel_id = match id {
        KeyRingIdentifier::Thread => linux_keyutils::KeyRingIdentifier::Thread,
        KeyRingIdentifier::Process => linux_keyutils::KeyRingIdentifier::Process,
        KeyRingIdentifier::Session => linux_keyutils::KeyRingIdentifier::Session,
        KeyRingIdentifier::User => linux_keyutils::KeyRingIdentifier::User,
        KeyRingIdentifier::UserSession => linux_keyutils::KeyRingIdentifier::UserSession,
        KeyRingIdentifier::Group => linux_keyutils::KeyRingIdentifier::Group,
        KeyRingIdentifier::ReqKeyAuthKey => linux_keyutils::KeyRingIdentifier::ReqKeyAuthKey,
    };
    KeyRing::from_special_id(kernel_id, create)
}

/// The identifier an operation acts on: the one given, or the session
/// keyring when none is given.
pub fn effective_identifier(key_ring: Option<&KeyRingIdentifier>) -> (r: KeyRingIdentifier)
    ensures
        r == (if key_ring is Some {
            *key_ring->0
        } else {
            KeyRingIdentifier::Session
        }),
{
    match key_ring {
        Some(ring) => *ring,
        None => KeyRingIdentifier::Session,
    }
}

/// Resolve an optional logical keyring identifier to a kernel keyring
/// handle, treating an absent identifier as the session keyring — the
/// selector handed to the kernel is [`effective_identifier`]'s result — and
/// passing the `create` flag through verbatim.  A kernel failure is mapped
/// into the error taxonomy at once, so the error is always a
/// kernel-originated category, never the text-decoding one.
pub fn get_ring(key_ring: Option<&KeyRingIdentifier>, create: bool) -> (r: Result<
    KeyRing,
    PythonLinuxKeyutilsError,
>)
    ensures
        r is Err ==> r->Err_0 != PythonLinuxKeyutilsError::UTF8Error,
{
    let id = effective_identifier(key_ring);
    match ring_from_special_id(&id, create) {
        Ok(ring) => Ok(ring),
        Err(err) => Err(PythonLinuxKeyutilsError::from_kernel_code(kernel_code_of(err))),
    }
}

} // verus!
