//! The size reconciler: brings two images to the same dimensions.

use vstd::prelude::*;
use crate::bitmap::{area, rgba_len, Bitmap, Raster};
use crate::codec::{resize_rgba8, triangle_resized};

verus! {

/// The reference dimensions of two images: those of the one with the
/// smaller area, the first on a tie.
pub open spec fn smallest_dimensions(dim_1: (u32, u32), dim_2: (u32, u32)) -> (u32, u32) {
    if area(dim_1.0, dim_1.1) <= area(dim_2.0, dim_2.1) {
        dim_1
    } else {
        dim_2
    }
}

/// `r` resampled to `dims` with the triangle filter.
pub open spec fn resized(r: Raster, dims: (u32, u32)) -> Raster {
    Raster {
        width: dims.0,
        height: dims.1,
        data: triangle_resized(r.data, r.width, r.height, dims.0, dims.1),
    }
}

/// The pair that reconciliation makes of `a` and `b`: the reference is kept
/// as it is, the other is resized to the reference's dimensions.
pub open spec fn reconciled(a: Raster, b: Raster) -> (Raster, Raster) {
    if area(a.width, a.height) <= area(b.width, b.height) {
        (a, resized(b, a.dims()))
    } else {
        (resized(a, b.dims()), b)
    }
}

/// The product of two `u32`s fits a `u64`.
fn area_u64(width: u32, height: u32) -> (r: u64)
    ensures
        r as int == area(width, height),
{
    proof {
        let (w, h) = (width as int, height as int);
        assert(0 <= w * h <= 0xffff_ffff * 0xffff_ffff) by (nonlinear_arith)
            requires
                0 <= w <= 0xffff_ffff,
                0 <= h <= 0xffff_ffff,
        ;
    }
    width as u64 * height as u64
}

/// Returns the dimensions with the smaller pixel area; on equal areas the
/// first argument wins.
pub fn get_smallest_dimensions(dim_1: (u32, u32), dim_2: (u32, u32)) -> (r: (u32, u32))
    ensures
        r == smallest_dimensions(dim_1, dim_2),
{
    let pix_1 = area_u64(dim_1.0, dim_1.1);
    let pix_2 = area_u64(dim_2.0, dim_2.1);
    if pix_1 <= pix_2 {
        dim_1
    } else {
        dim_2
    }
}

/// A smaller area means a buffer no longer than one that already fits.
proof fn lemma_smaller_area_fits(small: (u32, u32), large: Raster, large_len: usize)
    requires
        large.wf(),
        large.data.len() == large_len,
        area(small.0, small.1) <= area(large.width, large.height),
    ensures
        rgba_len(small.0, small.1) <= large.data.len() <= usize::MAX,
{
}

/// Resizes whichever image has the larger area to the exact dimensions of
/// the other; on equal areas the second is resized to the first's.
pub fn standardize_size(image_1: Bitmap, image_2: Bitmap) -> (r: (Bitmap, Bitmap))
    requires
        image_1@.wf(),
        image_2@.wf(),
    ensures
        (r.0@, r.1@) == reconciled(image_1@, image_2@),
        r.0@.wf(),
        r.1@.wf(),
        r.0@.dims() == smallest_dimensions(image_1@.dims(), image_2@.dims()),
        r.1@.dims() == r.0@.dims(),
        area(image_1.width, image_1.height) <= area(image_2.width, image_2.height) ==> r.0@
            == image_1@ && r.1@.dims() == image_1@.dims(),
        area(image_2.width, image_2.height) < area(image_1.width, image_1.height) ==> r.1@
            == image_2@ && r.0@.dims() == image_2@.dims(),
{
    let (width, height) = get_smallest_dimensions(image_1.dimensions(), image_2.dimensions());
    if image_1.width == width && image_1.height == height {
        let len_2 = image_2.data.len();
        proof {
            lemma_smaller_area_fits((width, height), image_2@, len_2);
        }
        let data = resize_rgba8(&image_2.data, image_2.width, image_2.height, width, height);
        (image_1, Bitmap { width, height, data })
    } else {
        let len_1 = image_1.data.len();
        proof {
            lemma_smaller_area_fits((width, height), image_1@, len_1);
        }
        let data = resize_rgba8(&image_1.data, image_1.width, image_1.height, width, height);
        (Bitmap { width, height, data }, image_2)
    }
}

} // verus!
