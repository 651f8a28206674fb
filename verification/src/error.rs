//! The error type of the library.

use vstd::prelude::*;

verus! {

/// Errors reported by the library.
#[derive(Debug, Clone, PartialEq, Eq)]
pub enum Error {
    /// A caption glyph could not be resolved or outlined; the payload says why.
    Glyph(String),
}

/// The message carried by an error.
pub open spec fn error_message(e: Error) -> Seq<char> {
    match e {
        Error::Glyph(m) => m@,
    }
}

/// Wraps the text of a failure reported by the platform font services as a
/// glyph error.
pub fn win_err(message: String) -> (e: Error)
    ensures
        e == Error::Glyph(message),
        error_message(e) == message@,
{
    Error::Glyph(message)
}

} // verus!
