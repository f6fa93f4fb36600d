//! Decoded images as the pipeline sees them: RGBA8 pixels, row-major.

use vstd::prelude::*;

verus! {

/// Width times height, as a mathematical integer.
pub open spec fn area(width: u32, height: u32) -> int {
    width as int * height as int
}

/// Byte length of a `width` by `height` RGBA8 buffer.
pub open spec fn rgba_len(width: u32, height: u32) -> int {
    area(width, height) * 4
}

/// The RGBA8 byte length of `width` by `height` pixels, computed where it
/// cannot overflow.
pub fn rgba_byte_len(width: u32, height: u32) -> (r: u128)
    ensures
        r as int == rgba_len(width, height),
{
    proof {
        let (w, h) = (width as int, height as int);
        assert(0 <= w * h <= 0xffff_ffff * 0xffff_ffff) by (nonlinear_arith)
            requires
                0 <= w <= 0xffff_ffff,
                0 <= h <= 0xffff_ffff,
        ;
    }
    width as u128 * height as u128 * 4
}

/// What a [`Bitmap`] denotes: its dimensions and its bytes.
pub ghost struct Raster {
    pub width: u32,
    pub height: u32,
    pub data: Seq<u8>,
}

impl Raster {
    /// Non-degenerate dimensions and one 4-byte block per pixel.
    pub open spec fn wf(self) -> bool {
        self.width > 0 && self.height > 0 && self.data.len() == rgba_len(self.width, self.height)
    }

    pub open spec fn dims(self) -> (u32, u32) {
        (self.width, self.height)
    }
}

/// A decoded image flattened to 8-bit RGBA: 4 bytes per pixel (R, G, B, A),
/// rows one after another with no padding.
pub struct Bitmap {
    pub width: u32,
    pub height: u32,
    pub data: Vec<u8>,
}

impl View for Bitmap {
    type V = Raster;

    open spec fn view(&self) -> Raster {
        Raster { width: self.width, height: self.height, data: self.data@ }
    }
}

impl Bitmap {
    /// Wraps an RGBA8 buffer; `None` when a dimension is zero or the buffer
    /// does not hold exactly `width * height * 4` bytes.
    pub fn new(width: u32, height: u32, data: Vec<u8>) -> (r: Option<Bitmap>)
        ensures
            r is Some <==> (width > 0 && height > 0 && data@.len() == rgba_len(width, height)),
            r matches Some(b) ==> b.width == width && b.height == height && b.data@ == data@,
    {
        let expected = rgba_byte_len(width, height);
        if width == 0 || height == 0 || data.len() as u128 != expected {
            None
        } else {
            Some(Bitmap { width, height, data })
        }
    }

    pub fn dimensions(&self) -> (r: (u32, u32))
        ensures
            r == self@.dims(),
    {
        (self.width, self.height)
    }
}

} // verus!
