//! An owned byte buffer.

use vstd::prelude::*;

verus! {

/// A growable, owned sequence of bytes. Its view is the bytes it holds.
pub struct UtlBuf {
    pub bytes: Vec<u8>,
}

impl View for UtlBuf {
    type V = Seq<u8>;

    open spec fn view(&self) -> Seq<u8> {
        self.bytes@
    }
}

impl From<Vec<u8>> for UtlBuf {
    /// The buffer that holds `bytes`.
    fn from(bytes: Vec<u8>) -> (buf: UtlBuf) {
        UtlBuf { bytes }
    }
}

impl vstd::std_specs::convert::FromSpecImpl<Vec<u8>> for UtlBuf {
    open spec fn obeys_from_spec() -> bool {
        true
    }

    open spec fn from_spec(bytes: Vec<u8>) -> UtlBuf {
        UtlBuf { bytes }
    }
}

impl UtlBuf {
    /// The empty buffer.
    pub fn new() -> (buf: UtlBuf)
        ensures
            buf@ == Seq::<u8>::empty(),
    {
        UtlBuf { bytes: Vec::new() }
    }

    /// Hands out the storage for writing. Whatever the caller leaves in it
    /// is what the buffer holds afterwards.
    pub fn as_mut_ptr(&mut self) -> (storage: &mut Vec<u8>)
        ensures
            storage@ == old(self)@,
            final(self)@ == final(storage)@,
    {
        &mut self.bytes
    }

    /// The buffer that holds a copy of `bytes`.
    pub fn from_slice(bytes: &[u8]) -> (buf: UtlBuf)
        ensures
            buf@ == bytes@,
    {
        UtlBuf { bytes: vstd::slice::slice_to_vec(bytes) }
    }

    /// The number of bytes held.
    pub fn len(&self) -> (len: usize)
        ensures
            len == self@.len(),
    {
        self.bytes.len()
    }

    /// The bytes held, for reading.
    pub fn as_slice(&self) -> (bytes: &[u8])
        ensures
            bytes@ == self@,
    {
        self.bytes.as_slice()
    }
}

} // verus!
