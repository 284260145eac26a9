//! Why a chunk or a chunk type was rejected.

use vstd::prelude::*;

verus! {

/// The ways in which bytes fail to be a chunk or a chunk type.
#[derive(Debug, Clone, Copy, PartialEq, Eq, Structural)]
pub enum PngError {
    /// The input ends before the chunk does.
    UnexpectedEof,
    /// A byte of a type code is no ASCII letter.
    InvalidTypeCode,
    /// A type code is not four bytes long.
    InvalidLength,
    /// The stored CRC is not the CRC of type and data.
    InvalidCrc,
    /// The chunk data is not UTF-8.
    InvalidUtf8,
}

} // verus!
