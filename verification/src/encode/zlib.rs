//! The zlib stream of some bytes, as the compression library makes it.

use std::io::Write;
use flate2::write::ZlibEncoder;
use flate2::Compression;
use vstd::prelude::*;

verus! {

/// `std::io::Error`, the error of the encoder: carried through, never read.
#[verifier::external_type_specification]
#[verifier::external_body]
pub struct ExIoError(std::io::Error);

/// What flate2 makes of `data` at its default level, when `data` is written
/// to a new encoder over an empty `Vec` in one piece and the encoder is then
/// finished: the zlib stream, or `None` where the encoder reports an error.
pub uninterp spec fn zlib_stream(data: Seq<u8>) -> Option<Seq<u8>>;

/// flate2's `ZlibEncoder::new` over an empty `Vec` with
/// `Compression::default()`, one `write_all` of `data`, then `finish`. The
/// outcome is by definition `zlib_stream(data)`: the bytes on success, `None`
/// on an error. Nothing is claimed about which of the two it is.
#[verifier::external_body]
pub(crate) fn zlib_compress(data: &[u8]) -> (stream: Result<Vec<u8>, std::io::Error>)
    ensures
        match stream {
            Ok(bytes) => zlib_stream(data@) == Some(bytes@),
            Err(_) => zlib_stream(data@) is None,
        },
{
    let mut encoder = ZlibEncoder::new(Vec::new(), Compression::default());
    encoder.write_all(data)?;
    encoder.finish()
}

} // verus!
