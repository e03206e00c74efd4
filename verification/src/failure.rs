//! The errors of the extractors that decode a file's bytes.

use vstd::prelude::*;

verus! {

/// The bytes handed to an extractor could not be decoded. The extractor then
/// yields no fingerprint at all: none is made up in its place.
#[derive(Clone, Copy, Debug, PartialEq, Eq, Structural)]
pub enum DecodeFailure {
    /// The bytes are no image in the format that the path names, or the
    /// image holds no pixel.
    Image,
    /// The bytes are no WAVE stream of 16-bit integer samples.
    Audio,
}

} // verus!
