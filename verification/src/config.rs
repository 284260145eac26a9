//! The render settings that hold where a scene names none.

use vstd::prelude::*;

verus! {

/// The image width in pixels.
pub fn default_image_width() -> (width: i32)
    ensures
        width == 400,
{
    400
}

/// The image height in pixels.
pub fn default_image_height() -> (height: i32)
    ensures
        height == 225,
{
    225
}

/// The rays sampled for each pixel.
pub fn default_samples_per_pixel() -> (samples: i32)
    ensures
        samples == 300,
{
    300
}

/// How often a ray may be scattered before it counts as black.
pub fn default_max_depth() -> (depth: i32)
    ensures
        depth == 50,
{
    50
}

} // verus!
