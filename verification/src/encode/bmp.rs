//! BMP: a file header of 14 bytes, an information header of 40 bytes, then
//! the rows from the bottom of the image up, each pixel as blue, green, red,
//! each row filled with zeros to a multiple of four bytes. 24 bits per
//! pixel, not compressed.

use vstd::prelude::*;
use crate::bytes::{le_bytes, le_bytes16, push_le_u16, push_le_u32};
use crate::encode::error::EncodeError;
use crate::framebuffer::{lemma_row_bounds, lemma_whole_pixels, Framebuffer, FramebufferView};

verus! {

/// The bytes of the two headers.
pub const BMP_HEADERS_SIZE: u32 = 54;

/// The bytes of one row in the file: three for each pixel, and up to three
/// more to reach a multiple of four.
pub open spec fn bmp_row_size(width: nat) -> nat {
    ((3 * width + 3) / 4 * 4) as nat
}

/// The bytes of all rows in the file.
pub open spec fn bmp_data_size(width: nat, height: nat) -> nat {
    bmp_row_size(width) * height
}

/// The bytes of the whole file.
pub open spec fn bmp_file_size(width: nat, height: nat) -> nat {
    54 + bmp_data_size(width, height)
}

/// The file header: `BM`, the size of the file, four reserved bytes, and the
/// offset of the pixel rows.
pub open spec fn bmp_file_header(file_size: u32) -> Seq<u8> {
    seq![0x42u8, 0x4d] + le_bytes(file_size) + le_bytes(0) + le_bytes(54)
}

/// The information header: its own size, width, height, one colour plane,
/// 24 bits per pixel, no compression, the size of the rows, and zero for
/// both print resolutions, the palette and the important colours.
pub open spec fn bmp_info_header(width: u32, height: u32, data_size: u32) -> Seq<u8> {
    le_bytes(40) + le_bytes(width) + le_bytes(height) + le_bytes16(1) + le_bytes16(24) + le_bytes(
        0,
    ) + le_bytes(data_size) + le_bytes(0) + le_bytes(0) + le_bytes(0) + le_bytes(0)
}

/// The pixels of `rgb` with blue first and red last.
pub open spec fn bgr(rgb: Seq<u8>) -> Seq<u8>
    decreases rgb.len(),
{
    if rgb.len() < 3 {
        Seq::empty()
    } else {
        let n = rgb.len() as int;
        bgr(rgb.take(n - 3)) + seq![rgb[n - 1], rgb[n - 2], rgb[n - 3]]
    }
}

/// `n` zero bytes.
pub open spec fn zeros(n: nat) -> Seq<u8> {
    Seq::new(n, |i: int| 0u8)
}

/// Row `r` of `image`, counted from the top, as it stands in the file.
pub open spec fn bmp_row(image: FramebufferView, r: int) -> Seq<u8> {
    bgr(image.row(r)) + zeros((bmp_row_size(image.width) - 3 * image.width) as nat)
}

/// The lowest `rows` rows of `image` as they stand in the file: the bottom
/// row first.
pub open spec fn bmp_rows(image: FramebufferView, rows: nat) -> Seq<u8>
    decreases rows,
{
    if rows == 0 {
        Seq::empty()
    } else {
        bmp_rows(image, (rows - 1) as nat) + bmp_row(image, image.height - rows)
    }
}

/// The BMP file of `image`.
pub open spec fn bmp_file(image: FramebufferView) -> Seq<u8> {
    bmp_file_header(bmp_file_size(image.width, image.height) as u32) + bmp_info_header(
        image.width as u32,
        image.height as u32,
        bmp_data_size(image.width, image.height) as u32,
    ) + bmp_rows(image, image.height)
}

proof fn lemma_bgr_len(rgb: Seq<u8>)
    requires
        rgb.len() % 3 == 0,
    ensures
        bgr(rgb).len() == rgb.len(),
    decreases rgb.len(),
{
    if rgb.len() >= 3 {
        lemma_bgr_len(rgb.take(rgb.len() - 3));
    }
}

proof fn lemma_bmp_rows_len(image: FramebufferView, rows: nat)
    requires
        image.wf(),
        rows <= image.height,
    ensures
        bmp_rows(image, rows).len() == bmp_row_size(image.width) * rows,
    decreases rows,
{
    if rows > 0 {
        let r = image.height - rows;
        lemma_bmp_rows_len(image, (rows - 1) as nat);
        lemma_row_bounds(image, r);
        lemma_whole_pixels(image);
        lemma_bgr_len(image.row(r));
        let size = bmp_row_size(image.width);
        assert(bgr(image.row(r)).len() == 3 * image.width);
        assert(size >= 3 * image.width);
        assert(bmp_row(image, r).len() == size);
        assert(bmp_rows(image, rows).len() == bmp_rows(image, (rows - 1) as nat).len() + size);
        assert(size * (rows - 1) + size == size * rows) by (nonlinear_arith);
    } else {
        assert(bmp_row_size(image.width) * rows == 0) by (nonlinear_arith)
            requires
                rows == 0,
        ;
    }
}

/// The file is as long as its header says.
pub proof fn lemma_bmp_file_len(image: FramebufferView)
    requires
        image.wf(),
    ensures
        bmp_file(image).len() == bmp_file_size(image.width, image.height),
{
    lemma_bmp_rows_len(image, image.height);
}

fn push_headers(out: &mut Vec<u8>, width: u32, height: u32, data_size: u32)
    requires
        data_size + 54 <= u32::MAX,
    ensures
        final(out)@ == old(out)@ + bmp_file_header((data_size + 54) as u32) + bmp_info_header(
            width,
            height,
            data_size,
        ),
{
    out.push(0x42);
    out.push(0x4d);
    push_le_u32(out, data_size + BMP_HEADERS_SIZE);
    push_le_u32(out, 0);
    push_le_u32(out, BMP_HEADERS_SIZE);
    assert(out@ =~= old(out)@ + bmp_file_header((data_size + 54) as u32));
    let ghost mid = out@;
    push_le_u32(out, 40);
    push_le_u32(out, width);
    push_le_u32(out, height);
    push_le_u16(out, 1);
    push_le_u16(out, 24);
    push_le_u32(out, 0);
    push_le_u32(out, data_size);
    push_le_u32(out, 0);
    push_le_u32(out, 0);
    push_le_u32(out, 0);
    push_le_u32(out, 0);
    assert(out@ =~= mid + bmp_info_header(width, height, data_size));
}

/// Appends the pixels of `row` with blue first, then `padding` zero bytes.
fn push_row(out: &mut Vec<u8>, row: &[u8], padding: usize)
    requires
        row@.len() % 3 == 0,
    ensures
        final(out)@ == old(out)@ + bgr(row@) + zeros(padding as nat),
{
    let n = row.len();
    let mut i: usize = 0;
    while i < n
        invariant
            i <= n,
            i % 3 == 0,
            n % 3 == 0,
            n == row@.len(),
            out@ == old(out)@ + bgr(row@.take(i as int)),
        decreases n - i,
    {
        proof {
            assert(row@.take(i + 3).take(i as int) =~= row@.take(i as int));
        }
        out.push(row[i + 2]);
        out.push(row[i + 1]);
        out.push(row[i]);
        i = i + 3;
        assert(out@ =~= old(out)@ + bgr(row@.take(i as int)));
    }
    assert(row@.take(i as int) =~= row@);
    let mut p: usize = 0;
    while p < padding
        invariant
            p <= padding,
            out@ == old(out)@ + bgr(row@) + zeros(p as nat),
        decreases padding - p,
    {
        out.push(0);
        p = p + 1;
        assert(out@ =~= old(out)@ + bgr(row@) + zeros(p as nat));
    }
}

/// `image` as a BMP file; `TooLarge` if the size of the file does not fit
/// the four bytes of its size field.
pub fn encode_bmp(image: &Framebuffer) -> (file: Result<Vec<u8>, EncodeError>)
    ensures
        match file {
            Ok(bytes) => bmp_file_size(image@.width, image@.height) <= u32::MAX && bytes@
                == bmp_file(image@),
            Err(e) => e == EncodeError::TooLarge && bmp_file_size(image@.width, image@.height)
                > u32::MAX,
        },
{
    let width = image.width();
    let height = image.height();
    let row_size: u64 = (3 * (width as u64) + 3) / 4 * 4;
    assert(row_size * height <= 0x4_0000_0000 * 0xffff_ffff) by (nonlinear_arith)
        requires
            0 <= row_size <= 0x4_0000_0000,
            0 <= height <= 0xffff_ffff,
    ;
    let data_size: u128 = (row_size as u128) * (height as u128);
    if data_size > (u32::MAX - BMP_HEADERS_SIZE) as u128 {
        return Err(EncodeError::TooLarge);
    }
    let padding: usize = (row_size - 3 * (width as u64)) as usize;
    let pixels = image.pixels();
    let total = pixels.len();
    let row_len = image.row_len();
    let mut file: Vec<u8> = Vec::new();
    push_headers(&mut file, width, height, data_size as u32);
    let mut done: u32 = 0;
    let mut end: usize = total;
    while done < height
        invariant
            done <= height,
            height == image@.height,
            width == image@.width,
            image@.wf(),
            pixels@ == image@.pixels,
            total == pixels@.len(),
            height > 0 ==> row_len == image@.row_bytes(),
            end == image@.row_bytes() * (height - done),
            padding == bmp_row_size(image@.width) - 3 * image@.width,
            file@ == bmp_file_header(bmp_file_size(image@.width, image@.height) as u32)
                + bmp_info_header(
                image@.width as u32,
                image@.height as u32,
                bmp_data_size(image@.width, image@.height) as u32,
            ) + bmp_rows(image@, done as nat),
        decreases height - done,
    {
        proof {
            lemma_row_bounds(image@, height - done - 1);
            assert(row_len % 3 == 0);
        }
        let start: usize = end - row_len;
        push_row(&mut file, vstd::slice::slice_subrange(pixels, start, end), padding);
        end = start;
        done = done + 1;
    }
    Ok(file)
}

} // verus!
