//! The bounded, zero-on-exit buffer for secret material.
//!
//! Secret bytes read from the kernel land in a [`SecretBuffer`]: a
//! fixed-capacity byte store that is never resized, is allocated zeroed, and
//! whose whole backing storage is wiped — through the `zeroize` crate's
//! elision-proof writes — before the operation that owns it returns, on
//! every exit path.

use vstd::prelude::*;

use linux_keyutils::Key;
use zeroize::Zeroize;

verus! {

/// Fixed capacity, in bytes, of a [`SecretBuffer`].  No stored secret may
/// exceed it, and a kernel read reporting more than this many bytes is a
/// fatal condition for the operation, never a silent truncation.
pub const SECRET_BUFFER_CAPACITY: usize = 2048;

/// A fixed-capacity byte buffer that receives secret material read from the
/// kernel.  It is owned by a single operation, never cached, and its backing
/// storage is zeroed before the operation releases it.
pub struct SecretBuffer {
    data: Vec<u8>,
}

impl SecretBuffer {
    /// The bytes currently held in the backing storage, in full: the valid
    /// prefix of a read and whatever stands after it alike.
    pub closed spec fn spec_bytes(&self) -> Seq<u8> {
        self.data@
    }

    /// Well-formed: the backing storage has exactly the fixed capacity.
    pub open spec fn wf(&self) -> bool {
        self.spec_bytes().len() == SECRET_BUFFER_CAPACITY
    }

    /// Every byte of the backing storage is zero.
    pub open spec fn all_zero(&self) -> bool {
        forall|i: int| 0 <= i < self.spec_bytes().len() ==> self.spec_bytes()[i] == 0u8
    }

    /// Allocate a buffer of the fixed capacity, zero-initialized.
    pub fn new() -> (r: Self)
        ensures
            r.wf(),
            r.all_zero(),
    {
        let mut data: Vec<u8> = Vec::new();
        while data.len() < SECRET_BUFFER_CAPACITY
            invariant
                data@.len() <= SECRET_BUFFER_CAPACITY,
                forall|i: int| 0 <= i < data@.len() ==> data@[i] == 0u8,
            decreases SECRET_BUFFER_CAPACITY - data@.len(),
        {
            data.push(0u8);
        }
        SecretBuffer { data }
    }

    /// Copy the valid prefix of `len` bytes out as an independent owned
    /// value, leaving the buffer itself untouched.
    pub fn copy_prefix(&self, len: usize) -> (r: Vec<u8>)
        requires
            self.wf(),
            len <= SECRET_BUFFER_CAPACITY,
        ensures
            r@ == self.spec_bytes().subrange(0, len as int),
    {
        let mut out: Vec<u8> = Vec::new();
        let mut i: usize = 0;
        while i < len
            invariant
                i <= len,
                len <= SECRET_BUFFER_CAPACITY,
                self.wf(),
                out@ == self.spec_bytes().subrange(0, i as int),
            decreases len - i,
        {
            out.push(self.data[i]);
            proof {
                assert(out@ =~= self.spec_bytes().subrange(0, i + 1 as int));
            }
            i = i + 1;
        }
        out
    }

    /// Report whether every byte of the backing storage is zero, so that a
    /// caller can observe the zero-on-exit guarantee.
    pub fn check_all_zero(&self) -> (r: bool)
        ensures
            r == self.all_zero(),
    {
        let mut i: usize = 0;
        while i < self.data.len()
            invariant
                i <= self.spec_bytes().len(),
                forall|j: int| 0 <= j < i ==> self.spec_bytes()[j] == 0u8,
            decreases self.spec_bytes().len() - i,
        {
            if self.data[i] != 0 {
                return false;
            }
            i = i + 1;
        }
        true
    }

    /// Relies on the `zeroize` crate's `Zeroize` impl for byte slices: every
    /// element of the backing storage is overwritten with zero in place,
    /// through volatile writes the compiler cannot elide, and the length is
    /// unchanged.
    #[verifier::external_body]
    pub fn wipe(&mut self)
        ensures
            final(self).all_zero(),
            final(self).spec_bytes().len() == old(self).spec_bytes().len(),
    {
        self.data.as_mut_slice().zeroize();
    }

    /// Relies on `linux_keyutils::Key::read`: the kernel writes the key's
    /// payload into the buffer (or into as much of it as fits) and the call
    /// returns the payload's full length, which may exceed the buffer's
    /// size; the buffer's own length is never changed.  The bytes written
    /// depend on kernel state, so nothing is promised of the contents.
    #[verifier::external_body]
    pub(crate) fn read_from_key(&mut self, key: &Key) -> (r: Result<
        usize,
        linux_keyutils::KeyError,
    >)
        ensures
            final(self).spec_bytes().len() == old(self).spec_bytes().len(),
    {
        key.read(&mut self.data)
    }
}

} // verus!
