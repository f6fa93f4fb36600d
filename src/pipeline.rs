//! The whole computation between decoding and encoding: format check, size
//! reconciliation, composition and assembly of the output record.

use vstd::prelude::*;
use crate::bitmap::{rgba_len, Bitmap, Raster};
use crate::codec::same_format;
use crate::compose::{combine_images, interleaved};
use crate::error::ImageDataErrors;
use crate::output::FloatingImage;
use crate::reconcile::{reconciled, smallest_dimensions, standardize_size};

verus! {

/// The composite bytes made of two decoded images: both reconciled to the
/// same dimensions, then interleaved pixel by pixel.
pub open spec fn combined(a: Raster, b: Raster) -> Seq<u8> {
    interleaved(reconciled(a, b).0.data, reconciled(a, b).1.data)
}

/// Fails with `DifferentImageFormats` exactly when the two tags differ.
pub fn check_formats(format_1: &image::ImageFormat, format_2: &image::ImageFormat) -> (r: Result<
    (),
    ImageDataErrors,
>)
    ensures
        r is Ok <==> *format_1 == *format_2,
        r is Err ==> r == Err::<(), _>(ImageDataErrors::DifferentImageFormats),
{
    if same_format(format_1, format_2) {
        Ok(())
    } else {
        Err(ImageDataErrors::DifferentImageFormats)
    }
}

/// Builds the output record for two decoded images and their container
/// formats. Differing formats stop it before any resizing or composing;
/// otherwise it holds the reconciled dimensions and the interleaved bytes.
pub fn build_output(
    image_1: Bitmap,
    format_1: &image::ImageFormat,
    image_2: Bitmap,
    format_2: &image::ImageFormat,
    name: String,
) -> (r: Result<FloatingImage, ImageDataErrors>)
    requires
        image_1@.wf(),
        image_2@.wf(),
    ensures
        r is Err <==> *format_1 != *format_2,
        r is Err ==> r == Err::<FloatingImage, _>(ImageDataErrors::DifferentImageFormats),
        r matches Ok(out) ==> {
            &&& (out.width, out.height) == smallest_dimensions(image_1@.dims(), image_2@.dims())
            &&& out.data@ == combined(image_1@, image_2@)
            &&& out.data@.len() == out.capacity()
            &&& out.name@ == name@
        },
{
    if let Err(e) = check_formats(format_1, format_2) {
        return Err(e);
    }
    let (image_1, image_2) = standardize_size(image_1, image_2);
    let width = image_1.width;
    let height = image_1.height;
    let byte_len = image_1.data.len();
    proof {
        assert(rgba_len(width, height) == byte_len);
    }
    let mut output = FloatingImage::new(width, height, name);
    let combined_data = combine_images(image_1, image_2);
    assert(combined_data@.len() == output.capacity());
    match output.set_data(combined_data) {
        Ok(()) => Ok(output),
        Err(e) => Err(e),
    }
}

} // verus!
