//! The ways in which signing and verification fail.

use vstd::prelude::*;

verus! {

/// Why an identity could not be built, or a tag could not be examined.
///
/// A tag that is well-formed but does not match is no error: verification
/// answers `Ok(false)` for it.
#[derive(Clone, Copy, Debug, PartialEq, Eq, Structural)]
pub enum TextError {
    /// The key material does not have the shape that the algorithm requires.
    InvalidKeyLength,
    /// The tag does not have the byte length that the algorithm fixes.
    MalformedSignature,
}

} // verus!
