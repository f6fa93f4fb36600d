//! What the pipeline takes from the `image` crate.

use vstd::prelude::*;

verus! {

/// `image::ImageFormat`, the container tag that decoding detects.
#[verifier::external_type_specification]
#[verifier::external_body]
pub struct ExImageFormat(image::ImageFormat);

/// Relies on the `PartialEq` that `image::ImageFormat` derives: the enum has
/// no fields, so two tags compare equal exactly when they are the same one.
#[verifier::external_body]
pub(crate) fn same_format(a: &image::ImageFormat, b: &image::ImageFormat) -> (r: bool)
    ensures
        r == (*a == *b),
{
    a == b
}

/// The RGBA8 bytes that `image::imageops::resize` with the triangle filter
/// makes of a `width` by `height` buffer at `new_width` by `new_height`.
pub uninterp spec fn triangle_resized(
    data: Seq<u8>,
    width: u32,
    height: u32,
    new_width: u32,
    new_height: u32,
) -> Seq<u8>;

/// Relies on `image::RgbaImage::from_raw`, which takes a buffer of at least
/// `width * height * 4` bytes, and on `image::imageops::resize` with
/// `FilterType::Triangle`: it returns an image of exactly the requested
/// dimensions, computed from the source pixels alone, and a plain copy when
/// the requested dimensions are the source's.
#[verifier::external_body]
pub(crate) fn resize_rgba8(
    data: &Vec<u8>,
    width: u32,
    height: u32,
    new_width: u32,
    new_height: u32,
) -> (r: Vec<u8>)
    requires
        width > 0,
        height > 0,
        new_width > 0,
        new_height > 0,
        data@.len() == width as int * height as int * 4,
        new_width as int * new_height as int * 4 <= usize::MAX,
    ensures
        r@ == triangle_resized(data@, width, height, new_width, new_height),
        r@.len() == new_width as int * new_height as int * 4,
        (new_width, new_height) == (width, height) ==> r@ == data@,
{
    match image::RgbaImage::from_raw(width, height, data.clone()) {
        Some(source) => image::imageops::resize(
            &source,
            new_width,
            new_height,
            image::imageops::FilterType::Triangle,
        ).into_raw(),
        None => Vec::new(),
    }
}

} // verus!
