//! An inbound value as the driver hands it over: bytes and the format they
//! are in.

use vstd::prelude::*;

verus! {

/// The wire format of a value.
#[derive(Clone, Copy, Debug, PartialEq, Eq, Structural)]
pub enum PgValueFormat {
    Text,
    Binary,
}

/// A borrowed view of one inbound value.
///
/// The driver owns the bytes; a value reference lives for one decode call.
#[derive(Clone, Copy, Debug)]
pub struct PgValueRef<'r> {
    bytes: &'r [u8],
    format: PgValueFormat,
}

impl<'r> PgValueRef<'r> {
    /// The format the value is tagged with.
    pub closed spec fn spec_format(&self) -> PgValueFormat {
        self.format
    }

    /// The bytes of the value.
    pub closed spec fn spec_bytes(&self) -> Seq<u8> {
        self.bytes@
    }

    /// A value reference over `bytes`, tagged with `format`.
    pub fn new(bytes: &'r [u8], format: PgValueFormat) -> (value: Self)
        ensures
            value.spec_format() == format,
            value.spec_bytes() == bytes@,
    {
        PgValueRef { bytes, format }
    }

    /// The format the value is tagged with.
    pub fn format(&self) -> (format: PgValueFormat)
        ensures
            format == self.spec_format(),
    {
        self.format
    }

    /// The bytes of the value, whatever its format.
    pub fn as_bytes(&self) -> (bytes: &'r [u8])
        ensures
            bytes@ == self.spec_bytes(),
    {
        self.bytes
    }
}

} // verus!
