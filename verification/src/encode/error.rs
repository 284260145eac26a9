//! Why an image was not encoded.

use vstd::prelude::*;

verus! {

/// The ways in which encoding an image fails.
#[derive(Debug, Clone, Copy, PartialEq, Eq, Structural)]
pub enum EncodeError {
    /// The file name's extension names no format that can be written.
    UnsupportedFiletype,
    /// A size field of the format has four bytes and cannot hold the size.
    TooLarge,
    /// The compressor reported a failure.
    Compression,
}

} // verus!
