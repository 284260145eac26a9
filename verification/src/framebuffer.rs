//! The finished image: one red, green and blue byte per pixel, rows from the
//! top of the image down, each row from left to right.

use vstd::prelude::*;

verus! {

/// An image as the encoders read it.
pub struct FramebufferView {
    pub width: nat,
    pub height: nat,
    pub pixels: Seq<u8>,
}

impl FramebufferView {
    /// Whether there are three bytes for each pixel.
    pub open spec fn wf(self) -> bool {
        self.pixels.len() == 3 * self.width * self.height
    }

    /// The bytes of one row.
    pub open spec fn row_bytes(self) -> int {
        3 * (self.width as int)
    }

    /// The bytes of row `r`, counted from the top.
    pub open spec fn row(self, r: int) -> Seq<u8>
        recommends
            0 <= r < self.height,
    {
        self.pixels.subrange(self.row_bytes() * r, self.row_bytes() * (r + 1))
    }
}

/// Every row lies within the pixel bytes.
pub proof fn lemma_row_bounds(view: FramebufferView, r: int)
    requires
        view.wf(),
        0 <= r < view.height,
    ensures
        0 <= view.row_bytes() * r,
        view.row_bytes() * r + view.row_bytes() == view.row_bytes() * (r + 1),
        view.row_bytes() * (r + 1) <= view.pixels.len(),
        view.row_bytes() <= view.pixels.len(),
        view.row(r).len() == view.row_bytes(),
{
    let b = view.row_bytes();
    let h = view.height as int;
    assert(0 <= b * r) by (nonlinear_arith)
        requires
            0 <= b,
            0 <= r,
    ;
    assert(b * r + b == b * (r + 1)) by (nonlinear_arith);
    assert(b * (r + 1) <= b * h) by (nonlinear_arith)
        requires
            0 <= b,
            r + 1 <= h,
    ;
    assert(b * h == 3 * view.width * view.height) by (nonlinear_arith)
        requires
            b == 3 * view.width,
            h == view.height,
    ;
}

/// The pixel bytes come in threes.
pub proof fn lemma_whole_pixels(view: FramebufferView)
    requires
        view.wf(),
    ensures
        view.pixels.len() % 3 == 0,
        view.row_bytes() % 3 == 0,
{
    let k = view.width * view.height;
    assert(3 * view.width * view.height == 3 * k) by (nonlinear_arith)
        requires
            k == view.width * view.height,
    ;
}

/// The pixels of an image of a given width and height.
#[derive(Debug)]
pub struct Framebuffer {
    width: u32,
    height: u32,
    pixels: Vec<u8>,
}

impl View for Framebuffer {
    type V = FramebufferView;

    closed spec fn view(&self) -> FramebufferView {
        FramebufferView {
            width: self.width as nat,
            height: self.height as nat,
            pixels: self.pixels@,
        }
    }
}

impl Framebuffer {
    #[verifier::type_invariant]
    spec fn complete(self) -> bool {
        self.pixels@.len() == 3 * self.width * self.height
    }

    /// The image of `width` by `height` pixels that `pixels` holds, if
    /// `pixels` has three bytes for each of them.
    pub fn new(width: u32, height: u32, pixels: Vec<u8>) -> (image: Option<Framebuffer>)
        ensures
            image is Some <==> pixels@.len() == 3 * width * height,
            image matches Some(fb) ==> fb@ == (FramebufferView {
                width: width as nat,
                height: height as nat,
                pixels: pixels@,
            }) && fb@.wf(),
    {
        assert(width * height <= 0xffff_ffff * 0xffff_ffff) by (nonlinear_arith)
            requires
                0 <= width <= 0xffff_ffff,
                0 <= height <= 0xffff_ffff,
        ;
        assert(3 * width * height == 3 * (width * height)) by (nonlinear_arith);
        let wanted: u128 = 3 * ((width as u128) * (height as u128));
        if pixels.len() as u128 == wanted {
            Some(Framebuffer { width, height, pixels })
        } else {
            None
        }
    }

    /// The width in pixels.
    pub fn width(&self) -> (width: u32)
        ensures
            width == self@.width,
    {
        self.width
    }

    /// The height in pixels.
    pub fn height(&self) -> (height: u32)
        ensures
            height == self@.height,
    {
        self.height
    }

    /// The pixel bytes.
    pub fn pixels(&self) -> (pixels: &[u8])
        ensures
            pixels@ == self@.pixels,
            self@.wf(),
            pixels@.len() % 3 == 0,
    {
        proof {
            use_type_invariant(self);
            lemma_whole_pixels(self@);
        }
        self.pixels.as_slice()
    }

    /// The bytes of one row: zero for an image without rows.
    pub fn row_len(&self) -> (len: usize)
        ensures
            self@.wf(),
            self@.height > 0 ==> len == self@.row_bytes(),
            self@.height == 0 ==> len == 0,
    {
        proof {
            use_type_invariant(self);
            if self.height > 0 {
                lemma_row_bounds(self@, 0);
            }
        }
        let total = self.pixels.len();
        if self.height == 0 {
            0
        } else {
            assert(3 * self.width <= total);
            3 * (self.width as usize)
        }
    }
}

} // verus!
