//! The outbound side: the buffer that argument values are written into.

use vstd::prelude::*;

verus! {

/// Whether an encoded argument is SQL `NULL`.
#[derive(Clone, Copy, Debug, PartialEq, Eq, Structural)]
pub enum IsNull {
    /// The argument is `NULL`; nothing was written for it.
    Yes,
    /// The argument has a value, and its bytes were written.
    No,
}

/// A growable buffer of bytes that encoders append to.
///
/// The driver owns the buffer; an encoder only ever adds to its end.
#[derive(Debug)]
pub struct PgArgumentBuffer {
    buffer: Vec<u8>,
}

impl View for PgArgumentBuffer {
    type V = Seq<u8>;

    closed spec fn view(&self) -> Seq<u8> {
        self.buffer@
    }
}

impl PgArgumentBuffer {
    /// An empty buffer.
    pub fn new() -> (buf: Self)
        ensures
            buf@ == Seq::<u8>::empty(),
    {
        PgArgumentBuffer { buffer: Vec::new() }
    }

    /// An empty buffer, allocated ahead for `capacity` bytes, such as a size
    /// hint.
    ///
    /// The room only spares later reallocation. Whatever `capacity` is, the
    /// buffer holds nothing, and it grows as bytes are appended.
    pub fn with_capacity(capacity: usize) -> (buf: Self)
        ensures
            buf@ == Seq::<u8>::empty(),
    {
        PgArgumentBuffer { buffer: Vec::with_capacity(capacity) }
    }

    /// The number of bytes written so far.
    pub fn len(&self) -> (len: usize)
        ensures
            len == self@.len(),
    {
        self.buffer.len()
    }

    /// The bytes written so far.
    pub fn as_slice(&self) -> (bytes: &[u8])
        ensures
            bytes@ == self@,
    {
        self.buffer.as_slice()
    }

    /// Moves `bytes` to the end of the buffer.
    pub fn append(&mut self, bytes: Vec<u8>)
        ensures
            final(self)@ == old(self)@ + bytes@,
    {
        let mut bytes = bytes;
        self.buffer.append(&mut bytes);
    }
}

} // verus!
