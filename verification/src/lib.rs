//! Secret storage on the Linux kernel key-management facility.
//!
//! The crate stores, fetches and invalidates named secrets inside a kernel
//! keyring chosen by a [`keyring::KeyRingIdentifier`].  Secret bytes that
//! transit through process memory live in a fixed-capacity
//! [`buffer::SecretBuffer`] whose backing storage is zeroed on every exit
//! path, and every kernel failure is mapped into the closed
//! [`errors::PythonLinuxKeyutilsError`] taxonomy before it reaches a caller.

pub mod buffer;
pub mod errors;
pub mod keyring;
pub mod ops;
pub mod text;

pub use buffer::SecretBuffer;
pub use buffer::SECRET_BUFFER_CAPACITY;
pub use errors::ErrorKind;
pub use errors::KernelErrorCode;
pub use errors::PythonLinuxKeyutilsError;
pub use keyring::effective_identifier;
pub use keyring::get_ring;
pub use keyring::KeyRingIdentifier;
pub use ops::effective_create;
pub use ops::fetch_secret_into;
pub use ops::payload_from_read;
pub use ops::get_secret;
pub use ops::get_session_secret;
pub use ops::invalidate_secret;
pub use ops::invalidate_session_secret;
pub use ops::set_secret;
pub use ops::set_session_secret;
pub use text::decode_secret_text;
