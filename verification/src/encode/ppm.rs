//! PPM in its ASCII form: the magic number of plain PPM, width and height,
//! the maximum 255, then one line `R G B` for each pixel.

use vstd::prelude::*;
use crate::decimal::{decimal, push_decimal};
use crate::framebuffer::{Framebuffer, FramebufferView};

verus! {

/// The header in ASCII: the letter `P` and the digit 3, a line feed,
/// `{width} {height}`, a line feed, `255`, a line feed.
pub open spec fn ppm_header(width: nat, height: nat) -> Seq<u8> {
    seq![80u8, 51, 10] + decimal(width) + seq![32u8] + decimal(height) + seq![10u8] + decimal(255)
        + seq![10u8]
}

/// `{r} {g} {b}\n` in ASCII.
pub open spec fn ppm_pixel(r: u8, g: u8, b: u8) -> Seq<u8> {
    decimal(r as nat) + seq![32u8] + decimal(g as nat) + seq![32u8] + decimal(b as nat) + seq![
        10u8,
    ]
}

/// The lines of the pixels whose bytes are `rgb`, three bytes to a pixel.
pub open spec fn ppm_pixels(rgb: Seq<u8>) -> Seq<u8>
    decreases rgb.len(),
{
    if rgb.len() < 3 {
        Seq::empty()
    } else {
        let n = rgb.len() as int;
        ppm_pixels(rgb.take(n - 3)) + ppm_pixel(rgb[n - 3], rgb[n - 2], rgb[n - 1])
    }
}

/// The PPM file of `image`.
pub open spec fn ppm_file(image: FramebufferView) -> Seq<u8> {
    ppm_header(image.width, image.height) + ppm_pixels(image.pixels)
}

fn push_pixel(out: &mut Vec<u8>, r: u8, g: u8, b: u8)
    ensures
        final(out)@ == old(out)@ + ppm_pixel(r, g, b),
{
    push_decimal(out, r as u32);
    out.push(32);
    push_decimal(out, g as u32);
    out.push(32);
    push_decimal(out, b as u32);
    out.push(10);
    assert(out@ =~= old(out)@ + ppm_pixel(r, g, b));
}

fn push_header(out: &mut Vec<u8>, width: u32, height: u32)
    ensures
        final(out)@ == old(out)@ + ppm_header(width as nat, height as nat),
{
    out.push(80);
    out.push(51);
    out.push(10);
    push_decimal(out, width);
    out.push(32);
    push_decimal(out, height);
    out.push(10);
    push_decimal(out, 255);
    out.push(10);
    assert(out@ =~= old(out)@ + ppm_header(width as nat, height as nat));
}

/// `image` as a PPM file.
pub fn encode_ppm(image: &Framebuffer) -> (file: Vec<u8>)
    ensures
        file@ == ppm_file(image@),
{
    let pixels = image.pixels();
    let total = pixels.len();
    let mut file: Vec<u8> = Vec::new();
    push_header(&mut file, image.width(), image.height());
    let mut i: usize = 0;
    while i < total
        invariant
            i <= total,
            i % 3 == 0,
            total % 3 == 0,
            total == pixels@.len(),
            file@ == ppm_header(image@.width, image@.height) + ppm_pixels(pixels@.take(i as int)),
        decreases total - i,
    {
        proof {
            assert(pixels@.take(i + 3).take(i as int) =~= pixels@.take(i as int));
        }
        push_pixel(&mut file, pixels[i], pixels[i + 1], pixels[i + 2]);
        i = i + 3;
    }
    assert(pixels@.take(i as int) =~= pixels@);
    file
}

} // verus!
