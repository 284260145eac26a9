//! The choice of the output format by the extension of the file name.

use vstd::prelude::*;
use crate::encode::bmp::{bmp_file, bmp_file_size, encode_bmp};
use crate::encode::error::EncodeError;
use crate::encode::png::{encode_png, png_encoding};
use crate::encode::ppm::{encode_ppm, ppm_file};
use crate::framebuffer::{Framebuffer, FramebufferView};
use crate::text::str_is;

verus! {

/// The formats in which an image can be written.
#[derive(Debug, Clone, Copy, PartialEq, Eq, Structural)]
pub enum OutputFormat {
    Ppm,
    Bmp,
    Png,
}

/// The format that a file name's extension asks for: `ppm`, `bmp` and `png`
/// name their formats, no extension means PPM, and any other extension is
/// not supported.
pub open spec fn format_of(extension: Option<Seq<char>>) -> Result<OutputFormat, EncodeError> {
    match extension {
        None => Ok(OutputFormat::Ppm),
        Some(ext) => if ext == "ppm"@ {
            Ok(OutputFormat::Ppm)
        } else if ext == "bmp"@ {
            Ok(OutputFormat::Bmp)
        } else if ext == "png"@ {
            Ok(OutputFormat::Png)
        } else {
            Err(EncodeError::UnsupportedFiletype)
        },
    }
}

/// The view of an optional extension.
pub open spec fn extension_view(extension: Option<&str>) -> Option<Seq<char>> {
    match extension {
        None => None,
        Some(ext) => Some(ext@),
    }
}

/// What encoding `image` in `format` gives. PPM is always written; BMP
/// fails with `TooLarge` where the file is too large for its size field; PNG
/// goes by what the compression library makes of the scanlines.
pub open spec fn encoding(image: FramebufferView, format: OutputFormat) -> Result<
    Seq<u8>,
    EncodeError,
> {
    match format {
        OutputFormat::Ppm => Ok(ppm_file(image)),
        OutputFormat::Bmp => if bmp_file_size(image.width, image.height) <= u32::MAX {
            Ok(bmp_file(image))
        } else {
            Err(EncodeError::TooLarge)
        },
        OutputFormat::Png => png_encoding(image),
    }
}

/// The format that `extension` asks for.
pub fn format_of_extension(extension: Option<&str>) -> (format: Result<OutputFormat, EncodeError>)
    ensures
        format == format_of(extension_view(extension)),
{
    proof {
        reveal_strlit("ppm");
        reveal_strlit("bmp");
        reveal_strlit("png");
    }
    match extension {
        None => Ok(OutputFormat::Ppm),
        Some(ext) => {
            let ppm: [u8; 3] = [112, 112, 109];
            let bmp: [u8; 3] = [98, 109, 112];
            let png: [u8; 3] = [112, 110, 103];
            assert(crate::text::ascii_chars(ppm@) =~= "ppm"@);
            assert(crate::text::ascii_chars(bmp@) =~= "bmp"@);
            assert(crate::text::ascii_chars(png@) =~= "png"@);
            if str_is(ext, &ppm) {
                Ok(OutputFormat::Ppm)
            } else if str_is(ext, &bmp) {
                Ok(OutputFormat::Bmp)
            } else if str_is(ext, &png) {
                Ok(OutputFormat::Png)
            } else {
                Err(EncodeError::UnsupportedFiletype)
            }
        },
    }
}

/// `image` as a file in `format`.
pub fn encode(image: &Framebuffer, format: OutputFormat) -> (file: Result<Vec<u8>, EncodeError>)
    ensures
        match file {
            Ok(bytes) => encoding(image@, format) == Ok::<Seq<u8>, EncodeError>(bytes@),
            Err(e) => encoding(image@, format) == Err::<Seq<u8>, EncodeError>(e),
        },
{
    match format {
        OutputFormat::Ppm => Ok(encode_ppm(image)),
        OutputFormat::Bmp => encode_bmp(image),
        OutputFormat::Png => encode_png(image),
    }
}

} // verus!
