//! The decode error taxonomy. Every decode entry point returns a result
//! distinguishing success from exactly one of these kinds, naming the
//! offending field or enumeration so a protocol mismatch is diagnosable
//! without inspecting raw bytes.

use vstd::prelude::*;

verus! {

/// Why a wire document could not be decoded into a record.
#[derive(Debug, Clone, PartialEq)]
pub enum DecodeError {
    /// An enumeration field held a tag outside the closed set: the
    /// enumeration's name and the offending tag.
    UnknownVariant(&'static str, String),
    /// A field held a value of the wrong shape: the field's name and the
    /// shape that was expected.
    MalformedField(&'static str, &'static str),
    /// A field with no documented default was absent: the field's name.
    MissingRequiredField(&'static str),
    /// A timestamp field could not be read as an absolute UTC instant.
    TimeParseError,
}

} // verus!
