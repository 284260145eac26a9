//! The order in which the pixels of an image are rendered: row by row from
//! the top of the image (the largest `y`) to the bottom (`y` = 0), each row
//! from left to right. A scan can also be walked from the bottom row up.

use vstd::prelude::*;

verus! {

/// The pixels of an image of `width` by `height`.
pub open spec fn pixel_count(width: nat, height: nat) -> nat {
    width * height
}

/// The coordinates `(x, y)` of pixel number `index` from the top.
pub open spec fn top_down(width: nat, height: nat, index: nat) -> (nat, nat)
    recommends
        index < pixel_count(width, height),
{
    (index % width, (height - 1 - index / width) as nat)
}

/// The coordinates `(x, y)` of pixel number `index` from the bottom: rows
/// upwards, each row still from left to right.
pub open spec fn bottom_up(width: nat, height: nat, index: nat) -> (nat, nat)
    recommends
        index < pixel_count(width, height),
{
    (index % width, index / width)
}

/// A pixel number below the pixel count lies in the image.
pub proof fn lemma_pixel_in_image(width: nat, height: nat, index: nat)
    requires
        index < pixel_count(width, height),
    ensures
        width > 0,
        index % width < width,
        index / width < height,
        top_down(width, height, index).0 < width,
        top_down(width, height, index).1 < height,
        bottom_up(width, height, index).0 < width,
        bottom_up(width, height, index).1 < height,
{
    if width == 0 {
        assert(width * height == 0) by (nonlinear_arith)
            requires
                width == 0,
        ;
    }
    let q = index / width;
    if q >= height {
        assert(width * q >= width * height) by (nonlinear_arith)
            requires
                q >= height,
                width > 0,
        ;
        assert(index >= width * q) by (nonlinear_arith)
            requires
                q == index / width,
                width > 0,
        ;
    }
}

/// The scan walks every pixel once: the pixel in row `y` and column `x` has
/// one number from the top and one from the bottom.
pub proof fn lemma_scan_reaches_every_pixel(width: nat, height: nat, x: nat, y: nat)
    requires
        x < width,
        y < height,
    ensures
        (height - 1 - y) * width + x < pixel_count(width, height),
        top_down(width, height, ((height - 1 - y) * width + x) as nat) == (x, y),
        y * width + x < pixel_count(width, height),
        bottom_up(width, height, y * width + x) == (x, y),
{
    let r = (height - 1 - y) as nat;
    lemma_row_major(width, height, x, r);
    lemma_row_major(width, height, x, y);
}

proof fn lemma_row_major(width: nat, height: nat, x: nat, row: nat)
    requires
        x < width,
        row < height,
    ensures
        row * width + x < width * height,
        (row * width + x) % width == x,
        (row * width + x) / width == row,
{
    assert(row * width + x < width * height) by (nonlinear_arith)
        requires
            x < width,
            row + 1 <= height,
    ;
    vstd::arithmetic::div_mod::lemma_fundamental_div_mod_converse(
        (row * width + x) as int,
        width as int,
        row as int,
        x as int,
    );
}

/// The pixels of an image whose sides fit 32 bits can be counted in 64.
pub proof fn lemma_pixel_count_fits(width: u32, height: u32)
    ensures
        pixel_count(width as nat, height as nat) < u64::MAX,
{
    assert(width * height <= 0xffff_ffff * 0xffff_ffff) by (nonlinear_arith)
        requires
            0 <= width <= 0xffff_ffff,
            0 <= height <= 0xffff_ffff,
    ;
}

/// The number of pixels of an image of `width` by `height`.
pub fn count_pixels(width: u32, height: u32) -> (count: u64)
    ensures
        count == pixel_count(width as nat, height as nat),
{
    proof {
        lemma_pixel_count_fits(width, height);
    }
    (width as u64) * (height as u64)
}

/// The coordinates of pixel number `index` from the top; `None` if the image
/// has no such pixel.
pub fn pixel_at(width: u32, height: u32, index: u64) -> (pixel: Option<(u32, u32)>)
    ensures
        match pixel {
            Some((x, y)) => index < pixel_count(width as nat, height as nat) && (x as nat, y as nat)
                == top_down(width as nat, height as nat, index as nat),
            None => index >= pixel_count(width as nat, height as nat),
        },
{
    if index >= count_pixels(width, height) {
        return None;
    }
    proof {
        lemma_pixel_in_image(width as nat, height as nat, index as nat);
    }
    let x: u32 = (index % (width as u64)) as u32;
    let row: u32 = (index / (width as u64)) as u32;
    Some((x, height - 1 - row))
}

/// The coordinates of pixel number `index` from the bottom; `None` if the
/// image has no such pixel.
pub fn pixel_at_back(width: u32, height: u32, index: u64) -> (pixel: Option<(u32, u32)>)
    ensures
        match pixel {
            Some((x, y)) => index < pixel_count(width as nat, height as nat) && (x as nat, y as nat)
                == bottom_up(width as nat, height as nat, index as nat),
            None => index >= pixel_count(width as nat, height as nat),
        },
{
    if index >= count_pixels(width, height) {
        return None;
    }
    proof {
        lemma_pixel_in_image(width as nat, height as nat, index as nat);
    }
    let x: u32 = (index % (width as u64)) as u32;
    let y: u32 = (index / (width as u64)) as u32;
    Some((x, y))
}

/// How far a scan has come.
pub struct PixelScanView {
    pub width: nat,
    pub height: nat,
    /// The pixels handed out from the top.
    pub front: nat,
    /// The pixels handed out from the bottom.
    pub back: nat,
}

/// A walk over the pixels of an image. `next` walks from the top row down,
/// `next_back` from the bottom row up; each keeps its own place and hands
/// out every pixel once.
#[derive(Debug)]
pub struct PixelScan {
    width: u32,
    height: u32,
    front: u64,
    back: u64,
}

impl View for PixelScan {
    type V = PixelScanView;

    closed spec fn view(&self) -> PixelScanView {
        PixelScanView {
            width: self.width as nat,
            height: self.height as nat,
            front: self.front as nat,
            back: self.back as nat,
        }
    }
}

impl PixelScan {
    #[verifier::type_invariant]
    spec fn within(self) -> bool {
        &&& self.front <= pixel_count(self.width as nat, self.height as nat)
        &&& self.back <= pixel_count(self.width as nat, self.height as nat)
    }

    /// A scan of an image of `width` by `height` that has handed out nothing
    /// yet.
    pub fn new(width: u32, height: u32) -> (scan: PixelScan)
        ensures
            scan@ == (PixelScanView {
                width: width as nat,
                height: height as nat,
                front: 0,
                back: 0,
            }),
    {
        PixelScan { width, height, front: 0, back: 0 }
    }

    /// The next pixel from the top, `(x, y)`; `None` when all were handed
    /// out.
    pub fn next(&mut self) -> (pixel: Option<(u32, u32)>)
        ensures
            match pixel {
                Some((x, y)) => {
                    &&& old(self)@.front < pixel_count(old(self)@.width, old(self)@.height)
                    &&& (x as nat, y as nat) == top_down(
                        old(self)@.width,
                        old(self)@.height,
                        old(self)@.front,
                    )
                    &&& final(self)@ == (PixelScanView {
                        front: old(self)@.front + 1,
                        ..old(self)@
                    })
                },
                None => {
                    &&& old(self)@.front >= pixel_count(old(self)@.width, old(self)@.height)
                    &&& final(self)@ == old(self)@
                },
            },
    {
        proof {
            use_type_invariant(&*self);
            lemma_pixel_count_fits(self.width, self.height);
        }
        let pixel = pixel_at(self.width, self.height, self.front);
        if pixel.is_some() {
            self.front = self.front + 1;
        }
        pixel
    }

    /// The next pixel from the bottom, `(x, y)`; `None` when all were handed
    /// out.
    pub fn next_back(&mut self) -> (pixel: Option<(u32, u32)>)
        ensures
            match pixel {
                Some((x, y)) => {
                    &&& old(self)@.back < pixel_count(old(self)@.width, old(self)@.height)
                    &&& (x as nat, y as nat) == bottom_up(
                        old(self)@.width,
                        old(self)@.height,
                        old(self)@.back,
                    )
                    &&& final(self)@ == (PixelScanView {
                        back: old(self)@.back + 1,
                        ..old(self)@
                    })
                },
                None => {
                    &&& old(self)@.back >= pixel_count(old(self)@.width, old(self)@.height)
                    &&& final(self)@ == old(self)@
                },
            },
    {
        proof {
            use_type_invariant(&*self);
            lemma_pixel_count_fits(self.width, self.height);
        }
        let pixel = pixel_at_back(self.width, self.height, self.back);
        if pixel.is_some() {
            self.back = self.back + 1;
        }
        pixel
    }
}

} // verus!
