//! The compositor: interleaves two flat RGBA8 buffers pixel by pixel.

use vstd::prelude::*;
use crate::bitmap::Bitmap;

verus! {

/// The buffer the compositor builds from `a` and `b`: byte `j` is taken from
/// `a` when it lies in an even-indexed pixel (its 4-byte block starts at a
/// multiple of 8) and from `b` otherwise. The count runs over the whole
/// flattened buffer, never restarting at a row.
pub open spec fn interleaved(a: Seq<u8>, b: Seq<u8>) -> Seq<u8> {
    Seq::new(a.len(), |j: int| if (j / 4) % 2 == 0 { a[j] } else { b[j] })
}

/// The 4-byte block of pixel `k` in the flat buffer `s`.
pub open spec fn pixel_block(s: Seq<u8>, k: int) -> Seq<u8> {
    s.subrange(4 * k, 4 * k + 4)
}

/// Whether two buffers can be interleaved: equal lengths, whole pixels.
pub open spec fn compatible_buffers(a: Seq<u8>, b: Seq<u8>) -> bool {
    a.len() == b.len() && a.len() % 4 == 0
}

/// Copies 4-byte pixel blocks alternately from `vec_1` and `vec_2`: a block
/// whose first byte offset is a multiple of 8 comes from `vec_1`, any other
/// from `vec_2`.
pub fn alternate_pixels(vec_1: &[u8], vec_2: &[u8]) -> (r: Vec<u8>)
    requires
        compatible_buffers(vec_1@, vec_2@),
    ensures
        r@ == interleaved(vec_1@, vec_2@),
{
    let n = vec_1.len();
    let mut combined_data: Vec<u8> = Vec::with_capacity(n);
    let mut i: usize = 0;
    while i < n
        invariant
            n == vec_1@.len(),
            compatible_buffers(vec_1@, vec_2@),
            i % 4 == 0,
            i <= n,
            combined_data@.len() == i,
            forall|j: int|
                0 <= j < i ==> #[trigger] combined_data@[j] == interleaved(vec_1@, vec_2@)[j],
        decreases n - i,
    {
        let from_first = i % 8 == 0;
        let src: &[u8] = if from_first {
            vec_1
        } else {
            vec_2
        };
        combined_data.push(src[i]);
        combined_data.push(src[i + 1]);
        combined_data.push(src[i + 2]);
        combined_data.push(src[i + 3]);
        proof {
            assert forall|j: int| 0 <= j < i + 4 implies #[trigger] combined_data@[j]
                == interleaved(vec_1@, vec_2@)[j] by {
                if j >= i {
                    assert(j / 4 == i / 4);
                    assert((i / 4) % 2 == 0 <==> i % 8 == 0);
                }
            }
        }
        i = i + 4;
    }
    assert(combined_data@ =~= interleaved(vec_1@, vec_2@));
    combined_data
}

/// Interleaves the RGBA8 buffers of two images of the same dimensions.
pub fn combine_images(image_1: Bitmap, image_2: Bitmap) -> (r: Vec<u8>)
    requires
        image_1@.wf(),
        image_2@.wf(),
        image_1@.dims() == image_2@.dims(),
    ensures
        r@ == interleaved(image_1.data@, image_2.data@),
        r@.len() == image_1.data@.len(),
{
    alternate_pixels(image_1.data.as_slice(), image_2.data.as_slice())
}

/// The compositor is a function of its two inputs: any two results built
/// from the same pair of buffers are the same bytes.
pub proof fn lemma_interleave_deterministic(a: Seq<u8>, b: Seq<u8>, r1: Seq<u8>, r2: Seq<u8>)
    requires
        compatible_buffers(a, b),
        r1 == interleaved(a, b),
        r2 == interleaved(a, b),
    ensures
        r1 == r2,
        r1.len() == a.len(),
{
}

/// Pixel `k` of the composite is pixel `k` of `a` when `k` is even and
/// pixel `k` of `b` when `k` is odd, counting over the whole buffer.
pub proof fn lemma_pixel_alternation(a: Seq<u8>, b: Seq<u8>, k: int)
    requires
        compatible_buffers(a, b),
        0 <= k < a.len() / 4,
    ensures
        pixel_block(interleaved(a, b), k) == if k % 2 == 0 {
            pixel_block(a, k)
        } else {
            pixel_block(b, k)
        },
{
    let r = interleaved(a, b);
    assert forall|j: int| 0 <= j < 4 implies #[trigger] pixel_block(r, k)[j] == if k % 2 == 0 {
        pixel_block(a, k)[j]
    } else {
        pixel_block(b, k)[j]
    } by {
        assert((4 * k + j) / 4 == k);
    }
    assert(pixel_block(r, k) =~= if k % 2 == 0 {
        pixel_block(a, k)
    } else {
        pixel_block(b, k)
    });
}

/// On an image of odd width `width`, the alternation does not restart at
/// each row: the first pixel of row `row` comes from `a` exactly when `row`
/// is even, and from `b` when it is odd.
pub proof fn lemma_odd_width_row_phase(a: Seq<u8>, b: Seq<u8>, width: int, row: int)
    requires
        compatible_buffers(a, b),
        width > 0,
        width % 2 == 1,
        0 <= row,
        (row + 1) * width <= a.len() / 4,
    ensures
        pixel_block(interleaved(a, b), row * width) == if row % 2 == 0 {
            pixel_block(a, row * width)
        } else {
            pixel_block(b, row * width)
        },
{
    let m = width / 2;
    assert(row * width == 2 * (row * m) + row) by (nonlinear_arith)
        requires
            width == 2 * m + 1,
    ;
    assert((row * width) % 2 == row % 2);
    assert(0 <= row * width < (row + 1) * width) by (nonlinear_arith)
        requires
            width > 0,
            row >= 0,
    ;
    lemma_pixel_alternation(a, b, row * width);
}

} // verus!
