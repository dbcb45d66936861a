//! The error taxonomy.
//!
//! Every failure a caller can see is one value of the closed enumeration
//! [`PythonLinuxKeyutilsError`].  Kernel-reported key-operation errors reach
//! it through [`KernelErrorCode`], a one-for-one image of the kernel error
//! codes that the key-management crate reports; a text-decoding failure
//! reaches it as [`PythonLinuxKeyutilsError::UTF8Error`], a category of its
//! own, distinct from every kernel-originated one.  Codes the taxonomy does
//! not recognize map to [`PythonLinuxKeyutilsError::Unknown`], the sole
//! deliberately ambiguous category.

use vstd::prelude::*;

use self::KernelErrorCode as C;
use linux_keyutils::KeyError;
use linux_keyutils::KeyError as E;

verus! {

/// The kernel-reported error codes of the key-management facility, as the
/// `linux_keyutils` crate surfaces them, carried over one for one so that
/// the mapping into the caller-facing taxonomy is a total, verified function.
#[derive(Clone, Copy, Debug, PartialEq, Eq, Structural)]
pub enum KernelErrorCode {
    /// The keyring was not available for modification by the user.
    AccessDenied,
    /// The user's key quota would be exceeded.
    QuotaExceeded,
    /// A buffer points outside the process's accessible address space.
    BadAddress,
    /// Bad arguments were provided to a key operation.
    InvalidArguments,
    /// The key has expired.
    KeyExpired,
    /// The key has been revoked.
    KeyRevoked,
    /// The attempt to generate a new key was rejected.
    KeyRejected,
    /// The keyring does not exist.
    KeyringDoesNotExist,
    /// The key does not exist.
    KeyDoesNotExist,
    /// Insufficient memory to create a key.
    OutOfMemory,
    /// The key description was invalid.
    InvalidDescription,
    /// An invalid key identifier was returned.
    InvalidIdentifier,
    /// The operation is not supported by this key type.
    OperationNotSupported,
    /// A write to the destination failed.
    WriteError,
    /// The caller lacks the needed permission.
    PermissionDenied,
    /// A required file or directory is missing.
    MissingFileOrDirectory,
    /// Any other errno, carried for completeness.
    Unknown(i32),
}

/// The closed set of failure categories that callers see.  Every kernel
/// error code and every text-decoding failure maps into exactly one of
/// these before it crosses the crate boundary.
#[derive(Clone, Copy, Debug, PartialEq, Eq, Structural)]
pub enum PythonLinuxKeyutilsError {
    /// The keyring was not available for modification by the user.
    AccessDenied,
    /// The user's key quota would be exceeded.
    QuotaExceeded,
    /// A buffer points outside the process's accessible address space.
    BadAddress,
    /// A caller-supplied argument was rejected.
    InvalidArguments,
    /// The key has expired.
    KeyExpired,
    /// The key has been revoked.
    KeyRevoked,
    /// The attempt to generate a new key was rejected.
    KeyRejected,
    /// The keyring does not exist.
    KeyringDoesNotExist,
    /// The key does not exist.
    KeyDoesNotExist,
    /// Insufficient memory to create a key.
    OutOfMemory,
    /// The key description was invalid.
    InvalidDescription,
    /// An invalid key identifier was returned.
    InvalidIdentifier,
    /// The operation is not supported.
    OperationNotSupported,
    /// A write to the destination failed.
    WriteError,
    /// A stored secret was not valid UTF-8 text.  This category signals an
    /// interpretation problem inside this system, never a kernel-reported
    /// condition.
    UTF8Error,
    /// The catch-all for kernel codes outside the recognized set.  It is the
    /// sole source of ambiguity in the taxonomy and is never used in place
    /// of a more specific category.
    Unknown,
}

/// The caller-facing kinds of error, one per host-exception class that the
/// binding layer raises: operating-system failures, argument-validation
/// failures, key lookup or lifecycle failures, memory exhaustion, encoding
/// failures, and runtime failures with no more specific class.
#[derive(Clone, Copy, Debug, PartialEq, Eq, Structural)]
pub enum ErrorKind {
    /// Permission or OS-resource failure.
    Os,
    /// Caller-input validation failure.
    Value,
    /// Key lookup or lifecycle failure.
    Lookup,
    /// Resource-exhaustion failure.
    Memory,
    /// Text-encoding failure, distinct from every kernel-originated kind.
    Encoding,
    /// Capability failure or catch-all.
    Runtime,
}

/// The total mapping from a kernel-reported code to its caller-facing
/// category.  Each recognized code has a named category of its own;
/// everything else falls to [`PythonLinuxKeyutilsError::Unknown`].
pub open spec fn spec_category_of_kernel(code: KernelErrorCode) -> PythonLinuxKeyutilsError {
    match code {
        KernelErrorCode::AccessDenied => PythonLinuxKeyutilsError::AccessDenied,
        KernelErrorCode::QuotaExceeded => PythonLinuxKeyutilsError::QuotaExceeded,
        KernelErrorCode::BadAddress => PythonLinuxKeyutilsError::BadAddress,
        KernelErrorCode::InvalidArguments => PythonLinuxKeyutilsError::InvalidArguments,
        KernelErrorCode::KeyExpired => PythonLinuxKeyutilsError::KeyExpired,
        KernelErrorCode::KeyRevoked => PythonLinuxKeyutilsError::KeyRevoked,
        KernelErrorCode::KeyRejected => PythonLinuxKeyutilsError::KeyRejected,
        KernelErrorCode::KeyringDoesNotExist => PythonLinuxKeyutilsError::KeyringDoesNotExist,
        KernelErrorCode::KeyDoesNotExist => PythonLinuxKeyutilsError::KeyDoesNotExist,
        KernelErrorCode::OutOfMemory => PythonLinuxKeyutilsError::OutOfMemory,
        KernelErrorCode::InvalidDescription => PythonLinuxKeyutilsError::InvalidDescription,
        KernelErrorCode::InvalidIdentifier => PythonLinuxKeyutilsError::InvalidIdentifier,
        KernelErrorCode::OperationNotSupported => PythonLinuxKeyutilsError::OperationNotSupported,
        KernelErrorCode::WriteError => PythonLinuxKeyutilsError::WriteError,
        KernelErrorCode::PermissionDenied => PythonLinuxKeyutilsError::Unknown,
        KernelErrorCode::MissingFileOrDirectory => PythonLinuxKeyutilsError::Unknown,
        KernelErrorCode::Unknown(_) => PythonLinuxKeyutilsError::Unknown,
    }
}

/// Whether a kernel code is one of the recognized ones, i.e. maps to a
/// named category rather than to the catch-all.
pub open spec fn spec_is_recognized(code: KernelErrorCode) -> bool {
    !(code is PermissionDenied || code is MissingFileOrDirectory || code is Unknown)
}

impl PythonLinuxKeyutilsError {
    /// The caller-facing kind of this category.
    pub open spec fn spec_kind(self) -> ErrorKind {
        match self {
            PythonLinuxKeyutilsError::AccessDenied => ErrorKind::Os,
            PythonLinuxKeyutilsError::QuotaExceeded => ErrorKind::Os,
            PythonLinuxKeyutilsError::BadAddress => ErrorKind::Os,
            PythonLinuxKeyutilsError::InvalidArguments => ErrorKind::Value,
            PythonLinuxKeyutilsError::KeyExpired => ErrorKind::Lookup,
            PythonLinuxKeyutilsError::KeyRevoked => ErrorKind::Lookup,
            PythonLinuxKeyutilsError::KeyRejected => ErrorKind::Lookup,
            PythonLinuxKeyutilsError::KeyringDoesNotExist => ErrorKind::Lookup,
            PythonLinuxKeyutilsError::KeyDoesNotExist => ErrorKind::Lookup,
            PythonLinuxKeyutilsError::OutOfMemory => ErrorKind::Memory,
            PythonLinuxKeyutilsError::InvalidDescription => ErrorKind::Lookup,
            PythonLinuxKeyutilsError::InvalidIdentifier => ErrorKind::Lookup,
            PythonLinuxKeyutilsError::OperationNotSupported => ErrorKind::Runtime,
            PythonLinuxKeyutilsError::WriteError => ErrorKind::Os,
            PythonLinuxKeyutilsError::UTF8Error => ErrorKind::Encoding,
            PythonLinuxKeyutilsError::Unknown => ErrorKind::Runtime,
        }
    }

    /// The human-readable message of this category.
    pub open spec fn spec_message(self) -> Seq<char> {
        match self {
            PythonLinuxKeyutilsError::AccessDenied => "Access denied"@,
            PythonLinuxKeyutilsError::QuotaExceeded => "Quota exceeded"@,
            PythonLinuxKeyutilsError::BadAddress => "Bad address"@,
            PythonLinuxKeyutilsError::InvalidArguments => "Invalid argument"@,
            PythonLinuxKeyutilsError::KeyExpired => "Key expired"@,
            PythonLinuxKeyutilsError::KeyRevoked => "Key revoked"@,
            PythonLinuxKeyutilsError::KeyRejected => "Key rejected"@,
            PythonLinuxKeyutilsError::KeyringDoesNotExist => "Keyring does not exist"@,
            PythonLinuxKeyutilsError::KeyDoesNotExist => "Key does not exist"@,
            PythonLinuxKeyutilsError::OutOfMemory => "Out of memory"@,
            PythonLinuxKeyutilsError::InvalidDescription => "Invalid description"@,
            PythonLinuxKeyutilsError::InvalidIdentifier => "Invalid identifier"@,
            PythonLinuxKeyutilsError::OperationNotSupported => "Operation not supported"@,
            PythonLinuxKeyutilsError::WriteError => "Write error"@,
            PythonLinuxKeyutilsError::UTF8Error => "Invalid UTF-8"@,
            PythonLinuxKeyutilsError::Unknown => "Unknown error"@,
        }
    }

    /// Map a kernel-reported code to its caller-facing category.
    pub fn from_kernel_code(code: KernelErrorCode) -> (r: Self)
        ensures
            r == spec_category_of_kernel(code),
    {
        match code {
            KernelErrorCode::AccessDenied => PythonLinuxKeyutilsError::AccessDenied,
            KernelErrorCode::QuotaExceeded => PythonLinuxKeyutilsError::QuotaExceeded,
            KernelErrorCode::BadAddress => PythonLinuxKeyutilsError::BadAddress,
            KernelErrorCode::InvalidArguments => PythonLinuxKeyutilsError::InvalidArguments,
            KernelErrorCode::KeyExpired => PythonLinuxKeyutilsError::KeyExpired,
            KernelErrorCode::KeyRevoked => PythonLinuxKeyutilsError::KeyRevoked,
            KernelErrorCode::KeyRejected => PythonLinuxKeyutilsError::KeyRejected,
            KernelErrorCode::KeyringDoesNotExist => PythonLinuxKeyutilsError::KeyringDoesNotExist,
            KernelErrorCode::KeyDoesNotExist => PythonLinuxKeyutilsError::KeyDoesNotExist,
            KernelErrorCode::OutOfMemory => PythonLinuxKeyutilsError::OutOfMemory,
            KernelErrorCode::InvalidDescription => PythonLinuxKeyutilsError::InvalidDescription,
            KernelErrorCode::InvalidIdentifier => PythonLinuxKeyutilsError::InvalidIdentifier,
            KernelErrorCode::OperationNotSupported => {
                PythonLinuxKeyutilsError::OperationNotSupported
            },
            KernelErrorCode::WriteError => PythonLinuxKeyutilsError::WriteError,
            KernelErrorCode::PermissionDenied => PythonLinuxKeyutilsError::Unknown,
            KernelErrorCode::MissingFileOrDirectory => PythonLinuxKeyutilsError::Unknown,
            KernelErrorCode::Unknown(_) => PythonLinuxKeyutilsError::Unknown,
        }
    }

    /// The caller-facing kind of this category.
    pub fn kind(&self) -> (r: ErrorKind)
        ensures
            r == self.spec_kind(),
    {
        match self {
            PythonLinuxKeyutilsError::AccessDenied => ErrorKind::Os,
            PythonLinuxKeyutilsError::QuotaExceeded => ErrorKind::Os,
            PythonLinuxKeyutilsError::BadAddress => ErrorKind::Os,
            PythonLinuxKeyutilsError::InvalidArguments => ErrorKind::Value,
            PythonLinuxKeyutilsError::KeyExpired => ErrorKind::Lookup,
            PythonLinuxKeyutilsError::KeyRevoked => ErrorKind::Lookup,
            PythonLinuxKeyutilsError::KeyRejected => ErrorKind::Lookup,
            PythonLinuxKeyutilsError::KeyringDoesNotExist => ErrorKind::Lookup,
            PythonLinuxKeyutilsError::KeyDoesNotExist => ErrorKind::Lookup,
            PythonLinuxKeyutilsError::OutOfMemory => ErrorKind::Memory,
            PythonLinuxKeyutilsError::InvalidDescription => ErrorKind::Lookup,
            PythonLinuxKeyutilsError::InvalidIdentifier => ErrorKind::Lookup,
            PythonLinuxKeyutilsError::OperationNotSupported => ErrorKind::Runtime,
            PythonLinuxKeyutilsError::WriteError => ErrorKind::Os,
            PythonLinuxKeyutilsError::UTF8Error => ErrorKind::Encoding,
            PythonLinuxKeyutilsError::Unknown => ErrorKind::Runtime,
        }
    }

    /// The human-readable message of this category.
    pub fn message(&self) -> (r: String)
        ensures
            r@ == self.spec_message(),
    {
        match self {
            PythonLinuxKeyutilsError::AccessDenied => "Access denied".to_string(),
            PythonLinuxKeyutilsError::QuotaExceeded => "Quota exceeded".to_string(),
            PythonLinuxKeyutilsError::BadAddress => "Bad address".to_string(),
            PythonLinuxKeyutilsError::InvalidArguments => "Invalid argument".to_string(),
            PythonLinuxKeyutilsError::KeyExpired => "Key expired".to_string(),
            PythonLinuxKeyutilsError::KeyRevoked => "Key revoked".to_string(),
            PythonLinuxKeyutilsError::KeyRejected => "Key rejected".to_string(),
            PythonLinuxKeyutilsError::KeyringDoesNotExist => {
                "Keyring does not exist".to_string()
            },
            PythonLinuxKeyutilsError::KeyDoesNotExist => "Key does not exist".to_string(),
            PythonLinuxKeyutilsError::OutOfMemory => "Out of memory".to_string(),
            PythonLinuxKeyutilsError::InvalidDescription => "Invalid description".to_string(),
            PythonLinuxKeyutilsError::InvalidIdentifier => "Invalid identifier".to_string(),
            PythonLinuxKeyutilsError::OperationNotSupported => {
                "Operation not supported".to_string()
            },
            PythonLinuxKeyutilsError::WriteError => "Write error".to_string(),
            PythonLinuxKeyutilsError::UTF8Error => "Invalid UTF-8".to_string(),
            PythonLinuxKeyutilsError::Unknown => "Unknown error".to_string(),
        }
    }
}

/// Law: no kernel-reported code ever maps to the text-decoding category;
/// `UTF8Error` stays distinct from every kernel-originated failure.
pub proof fn lemma_kernel_category_never_utf8(code: KernelErrorCode)
    ensures
        spec_category_of_kernel(code) != PythonLinuxKeyutilsError::UTF8Error,
{
}

/// Law: the catch-all category is reached exactly by the codes outside the
/// recognized set, so `Unknown` never stands in for a specific category and
/// no recognized code is silently merged into it.
pub proof fn lemma_unknown_only_for_unrecognized(code: KernelErrorCode)
    ensures
        spec_category_of_kernel(code) == PythonLinuxKeyutilsError::Unknown
            <==> !spec_is_recognized(code),
{
}

/// Law: the text-decoding category is an encoding failure of its own, never
/// conflated with a kernel-originated category: no kernel-reported code maps
/// to a category that shares `UTF8Error`'s kind or its message.
pub proof fn lemma_utf8_category_distinct(code: KernelErrorCode)
    ensures
        spec_category_of_kernel(code).spec_kind() != PythonLinuxKeyutilsError::UTF8Error.spec_kind(),
        spec_category_of_kernel(code).spec_message() != PythonLinuxKeyutilsError::UTF8Error.spec_message(),
{
    reveal_strlit("Access denied");
    reveal_strlit("Quota exceeded");
    reveal_strlit("Bad address");
    reveal_strlit("Invalid argument");
    reveal_strlit("Key expired");
    reveal_strlit("Key revoked");
    reveal_strlit("Key rejected");
    reveal_strlit("Keyring does not exist");
    reveal_strlit("Key does not exist");
    reveal_strlit("Out of memory");
    reveal_strlit("Invalid description");
    reveal_strlit("Invalid identifier");
    reveal_strlit("Operation not supported");
    reveal_strlit("Write error");
    reveal_strlit("Unknown error");
    reveal_strlit("Invalid UTF-8");
    // Each kernel category's message differs from the text-decoding one in
    // its length or, at equal length, in its first character.
    assert("Invalid UTF-8"@.len() == 13 && "Invalid UTF-8"@.index(0) == 'I');
    assert("Access denied"@.len() == 13 && "Access denied"@.index(0) == 'A');
    assert("Quota exceeded"@.len() == 14);
    assert("Bad address"@.len() == 11);
    assert("Invalid argument"@.len() == 16);
    assert("Key expired"@.len() == 11);
    assert("Key revoked"@.len() == 11);
    assert("Key rejected"@.len() == 12);
    assert("Keyring does not exist"@.len() == 22);
    assert("Key does not exist"@.len() == 18);
    assert("Out of memory"@.len() == 13 && "Out of memory"@.index(0) == 'O');
    assert("Invalid description"@.len() == 19);
    assert("Invalid identifier"@.len() == 18);
    assert("Operation not supported"@.len() == 23);
    assert("Write error"@.len() == 11);
    assert("Unknown error"@.len() == 13 && "Unknown error"@.index(0) == 'U');
}

/// Declares the error type of the key-management crate so that the trusted
/// syscall wrappers can return it.  Values of it are opaque here; they are
/// converted by [`kernel_code_of`] before verified code inspects them.
#[verifier::external_type_specification]
#[verifier::external_body]
pub struct ExKeyError(KeyError);

/// Relies on `linux_keyutils::KeyError` being that crate's closed error
/// enumeration: each variant (`E` below) is carried over to the same-named
/// [`KernelErrorCode`] variant (`C` below), one for one, the unknown errno
/// included.
#[verifier::external_body]
pub(crate) fn kernel_code_of(err: KeyError) -> KernelErrorCode {
    match err {
        E::AccessDenied => C::AccessDenied, E::QuotaExceeded => C::QuotaExceeded,
        E::BadAddress => C::BadAddress, E::InvalidArguments => C::InvalidArguments,
        E::KeyExpired => C::KeyExpired, E::KeyRevoked => C::KeyRevoked,
        E::KeyRejected => C::KeyRejected, E::KeyringDoesNotExist => C::KeyringDoesNotExist,
        E::KeyDoesNotExist => C::KeyDoesNotExist, E::OutOfMemory => C::OutOfMemory,
        E::InvalidDescription => C::InvalidDescription, E::InvalidIdentifier => C::InvalidIdentifier,
        E::OperationNotSupported => C::OperationNotSupported, E::WriteError => C::WriteError,
        E::PermissionDenied => C::PermissionDenied, E::MissingFileOrDirectory => C::MissingFileOrDirectory,
        E::Unknown(c) => C::Unknown(c),
    }
}

} // verus!
