//! The ways in which encoding or decoding a geometry fails.

use vstd::prelude::*;

verus! {

/// Why a geometry could not be encoded or decoded.
#[derive(Debug, PartialEq, Eq)]
pub enum GeometryError {
    /// The codec's writer rejected the value. Holds the codec's message.
    Write(String),
    /// The codec's reader could not parse the bytes. Holds the codec's message.
    Parse(String),
    /// The value arrived in text format, which this adapter does not read.
    UnsupportedFormat,
}

impl GeometryError {
    /// The text that [`GeometryError::message`] returns.
    ///
    /// A writer's failure is passed on as it is, a reader's failure is
    /// prefixed to mark it as an EWKB parse failure, and a value in text
    /// format always gives the same fixed text.
    pub open spec fn spec_message(&self) -> Seq<char> {
        match self {
            GeometryError::Write(detail) => detail@,
            GeometryError::Parse(detail) => "Failed to parse EWKB geometry: "@ + detail@,
            GeometryError::UnsupportedFormat => "Failed to parse WKT geometry"@,
        }
    }

    /// The message a caller sees for this failure.
    pub fn message(&self) -> (text: String)
        ensures
            text@ == self.spec_message(),
    {
        match self {
            GeometryError::Write(detail) => detail.clone(),
            GeometryError::Parse(detail) => {
                String::from_str("Failed to parse EWKB geometry: ").concat(detail.as_str())
            },
            GeometryError::UnsupportedFormat => String::from_str("Failed to parse WKT geometry"),
        }
    }
}

} // verus!
