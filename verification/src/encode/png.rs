//! PNG: the signature, an `IHDR` chunk, one `IDAT` chunk with the compressed
//! scanlines, and an empty `IEND` chunk. Eight bits per sample, truecolour,
//! no interlace; every scanline has filter type 0.

use std::convert::TryFrom;
use vstd::prelude::*;
use vstd::slice::slice_subrange;
use crate::bytes::{append_bytes, be_bytes, push_be_u32};
use crate::encode::error::EncodeError;
use crate::encode::zlib::{zlib_compress, zlib_stream};
use crate::framebuffer::{lemma_row_bounds, Framebuffer, FramebufferView};
use crate::png::chunk::{chunk_wire, Chunk, ChunkView};
use crate::png::chunk_type::{is_type_code, ChunkType};

verus! {

/// The eight bytes that every PNG file starts with.
pub open spec fn png_signature() -> Seq<u8> {
    seq![137u8, 80, 78, 71, 13, 10, 26, 10]
}

/// `IHDR` in ASCII.
pub open spec fn ihdr_code() -> Seq<u8> {
    seq![73u8, 72, 68, 82]
}

/// `IDAT` in ASCII.
pub open spec fn idat_code() -> Seq<u8> {
    seq![73u8, 68, 65, 84]
}

/// `IEND` in ASCII.
pub open spec fn iend_code() -> Seq<u8> {
    seq![73u8, 69, 78, 68]
}

/// The data of the header chunk: width and height, then bit depth 8, colour
/// type 2, and 0 for compression method, filter method and interlace.
pub open spec fn ihdr_data(width: u32, height: u32) -> Seq<u8> {
    be_bytes(width) + be_bytes(height) + seq![8u8, 2, 0, 0, 0]
}

/// The first `rows` rows of `image`, each behind its filter-type byte 0.
pub open spec fn scanlines(image: FramebufferView, rows: nat) -> Seq<u8>
    decreases rows,
{
    if rows == 0 {
        Seq::empty()
    } else {
        scanlines(image, (rows - 1) as nat) + seq![0u8] + image.row(rows - 1)
    }
}

/// The PNG file of an image of `width` by `height` pixels whose compressed
/// scanlines are `compressed`.
pub open spec fn png_file(width: u32, height: u32, compressed: Seq<u8>) -> Seq<u8> {
    png_signature() + chunk_wire(
        ChunkView { chunk_type: ihdr_code(), data: ihdr_data(width, height) },
    ) + chunk_wire(ChunkView { chunk_type: idat_code(), data: compressed }) + chunk_wire(
        ChunkView { chunk_type: iend_code(), data: Seq::empty() },
    )
}

fn chunk_type_of(code: [u8; 4]) -> (chunk_type: ChunkType)
    requires
        is_type_code(code@),
    ensures
        chunk_type@ == code@,
{
    broadcast use ChunkType::lemma_of_array_view;

    match ChunkType::try_from(code) {
        Ok(chunk_type) => chunk_type,
        Err(_) => vstd::pervasive::unreached(),
    }
}

/// The scanlines of `image` as they go into the compressor.
pub fn png_scanlines(image: &Framebuffer) -> (lines: Vec<u8>)
    ensures
        lines@ == scanlines(image@, image@.height),
{
    let pixels = image.pixels();
    let total = pixels.len();
    let row_len = image.row_len();
    let height = image.height();
    let mut lines: Vec<u8> = Vec::new();
    let mut row: u32 = 0;
    let mut start: usize = 0;
    while row < height
        invariant
            row <= height,
            height == image@.height,
            image@.wf(),
            pixels@ == image@.pixels,
            total == pixels@.len(),
            height > 0 ==> row_len == image@.row_bytes(),
            start == image@.row_bytes() * row,
            lines@ == scanlines(image@, row as nat),
        decreases height - row,
    {
        proof {
            lemma_row_bounds(image@, row as int);
        }
        lines.push(0);
        append_bytes(&mut lines, slice_subrange(pixels, start, start + row_len));
        start = start + row_len;
        row = row + 1;
    }
    lines
}

/// Appends the chunk of type `code` with `data` in its wire format.
fn push_chunk(file: &mut Vec<u8>, code: [u8; 4], data: Vec<u8>)
    requires
        is_type_code(code@),
        data@.len() <= u32::MAX,
    ensures
        final(file)@ == old(file)@ + chunk_wire(ChunkView { chunk_type: code@, data: data@ }),
{
    let chunk = Chunk::new(chunk_type_of(code), data);
    append_bytes(file, chunk.as_bytes().as_slice());
}

fn ihdr_letters() -> (code: [u8; 4])
    ensures
        code@ == ihdr_code(),
        is_type_code(code@),
{
    let code: [u8; 4] = [73, 72, 68, 82];
    assert(code@ =~= ihdr_code());
    code
}

fn idat_letters() -> (code: [u8; 4])
    ensures
        code@ == idat_code(),
        is_type_code(code@),
{
    let code: [u8; 4] = [73, 68, 65, 84];
    assert(code@ =~= idat_code());
    code
}

fn iend_letters() -> (code: [u8; 4])
    ensures
        code@ == iend_code(),
        is_type_code(code@),
{
    let code: [u8; 4] = [73, 69, 78, 68];
    assert(code@ =~= iend_code());
    code
}

fn ihdr_bytes(width: u32, height: u32) -> (data: Vec<u8>)
    ensures
        data@ == ihdr_data(width, height),
        data@.len() == 13,
{
    let mut data: Vec<u8> = Vec::new();
    push_be_u32(&mut data, width);
    push_be_u32(&mut data, height);
    append_bytes(&mut data, &[8, 2, 0, 0, 0]);
    assert(data@ =~= ihdr_data(width, height));
    data
}

/// The PNG file of an image of `width` by `height` pixels whose compressed
/// scanlines are `compressed`.
pub fn png_file_bytes(width: u32, height: u32, compressed: Vec<u8>) -> (file: Vec<u8>)
    requires
        compressed@.len() <= u32::MAX,
    ensures
        file@ == png_file(width, height, compressed@),
{
    let mut file: Vec<u8> = Vec::new();
    append_bytes(&mut file, &[137, 80, 78, 71, 13, 10, 26, 10]);
    assert(file@ =~= png_signature());
    push_chunk(&mut file, ihdr_letters(), ihdr_bytes(width, height));
    push_chunk(&mut file, idat_letters(), compressed);
    push_chunk(&mut file, iend_letters(), Vec::new());
    file
}

/// What encoding `image` as PNG gives, for each outcome of compressing its
/// scanlines: the file round the stream; `TooLarge` where the stream does not
/// fit the length field of a chunk; `Compression` where there is no stream.
pub open spec fn png_encoding(image: FramebufferView) -> Result<Seq<u8>, EncodeError> {
    match zlib_stream(scanlines(image, image.height)) {
        Some(compressed) => if compressed.len() <= u32::MAX {
            Ok(png_file(image.width as u32, image.height as u32, compressed))
        } else {
            Err(EncodeError::TooLarge)
        },
        None => Err(EncodeError::Compression),
    }
}

/// `image` as a PNG file. The scanlines are compressed by the compression
/// library; `Compression` if it fails, `TooLarge` if what it returns does not
/// fit the length field of a chunk.
pub fn encode_png(image: &Framebuffer) -> (file: Result<Vec<u8>, EncodeError>)
    ensures
        match file {
            Ok(bytes) => png_encoding(image@) == Ok::<Seq<u8>, EncodeError>(bytes@),
            Err(e) => png_encoding(image@) == Err::<Seq<u8>, EncodeError>(e),
        },
{
    let lines = png_scanlines(image);
    match zlib_compress(lines.as_slice()) {
        Ok(compressed) => {
            if compressed.len() > u32::MAX as usize {
                Err(EncodeError::TooLarge)
            } else {
                Ok(png_file_bytes(image.width(), image.height(), compressed))
            }
        },
        Err(_) => Err(EncodeError::Compression),
    }
}

} // verus!
