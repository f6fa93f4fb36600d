use image::ImageFormat;
use image_combiner::bitmap::Bitmap;
use image_combiner::compose::{alternate_pixels, combine_images};
use image_combiner::error::ImageDataErrors;
use image_combiner::output::FloatingImage;
use image_combiner::pipeline::{build_output, check_formats};
use image_combiner::reconcile::{get_smallest_dimensions, standardize_size};

const RED: [u8; 4] = [255, 0, 0, 255];
const GREEN: [u8; 4] = [0, 255, 0, 255];

fn solid(width: u32, height: u32, pixel: [u8; 4]) -> Bitmap {
    let mut data = Vec::new();
    for _ in 0..width * height {
        data.extend_from_slice(&pixel);
    }
    Bitmap::new(width, height, data).expect("well-formed bitmap")
}

fn numbered(width: u32, height: u32) -> Bitmap {
    let data: Vec<u8> = (0..width * height * 4).map(|i| (i * 3 % 251) as u8).collect();
    Bitmap::new(width, height, data).expect("well-formed bitmap")
}

#[test]
fn alternate_two_by_two_scenario() {
    let a = solid(2, 2, RED);
    let b = solid(2, 2, GREEN);
    let out = alternate_pixels(&a.data, &b.data);
    assert_eq!(
        out,
        vec![255, 0, 0, 255, 0, 255, 0, 255, 255, 0, 0, 255, 0, 255, 0, 255]
    );
}

#[test]
fn alternate_is_deterministic() {
    let a = numbered(3, 3);
    let b = solid(3, 3, GREEN);
    let first = alternate_pixels(&a.data, &b.data);
    let second = alternate_pixels(&a.data, &b.data);
    assert_eq!(first, second);
    assert_eq!(first.len(), 36);
}

#[test]
fn alternate_even_width_blocks() {
    let a = numbered(4, 2);
    let b = solid(4, 2, GREEN);
    let out = alternate_pixels(&a.data, &b.data);
    for k in 0..8usize {
        let block = &out[4 * k..4 * k + 4];
        if k % 2 == 0 {
            assert_eq!(block, &a.data[4 * k..4 * k + 4]);
        } else {
            assert_eq!(block, &GREEN[..]);
        }
    }
}

#[test]
fn alternate_odd_width_phase_shifts_per_row() {
    // 3 pixels per row: row 0 starts with A, row 1 with B, row 2 with A.
    let a = solid(3, 3, RED);
    let b = solid(3, 3, GREEN);
    let out = alternate_pixels(&a.data, &b.data);
    let first_of_row = |row: usize| &out[4 * 3 * row..4 * 3 * row + 4];
    assert_eq!(first_of_row(0), &RED[..]);
    assert_eq!(first_of_row(1), &GREEN[..]);
    assert_eq!(first_of_row(2), &RED[..]);
    assert_eq!(&out[4 * 2..4 * 3], &RED[..]);
    assert_eq!(&out[4 * 3..4 * 4], &GREEN[..]);
}

#[test]
fn alternate_empty_buffers() {
    assert!(alternate_pixels(&[], &[]).is_empty());
}

#[test]
fn combine_images_interleaves() {
    let out = combine_images(solid(1, 2, GREEN), solid(1, 2, RED));
    assert_eq!(out, vec![0, 255, 0, 255, 255, 0, 0, 255]);
}

#[test]
fn smallest_dimensions_picks_smaller_area() {
    assert_eq!(get_smallest_dimensions((4, 4), (2, 2)), (2, 2));
    assert_eq!(get_smallest_dimensions((2, 2), (4, 4)), (2, 2));
    assert_eq!(get_smallest_dimensions((1, 20), (4, 4)), (4, 4));
}

#[test]
fn smallest_dimensions_tie_keeps_first() {
    assert_eq!(get_smallest_dimensions((2, 8), (4, 4)), (2, 8));
    assert_eq!(get_smallest_dimensions((4, 4), (2, 8)), (4, 4));
}

#[test]
fn smallest_dimensions_large_values_do_not_overflow() {
    let big = (u32::MAX, u32::MAX);
    assert_eq!(get_smallest_dimensions(big, (1, 1)), (1, 1));
    assert_eq!(get_smallest_dimensions(big, big), big);
}

#[test]
fn standardize_keeps_smaller_first() {
    let a = numbered(2, 2);
    let expected = a.data.clone();
    let (x, y) = standardize_size(a, numbered(4, 4));
    assert_eq!((x.width, x.height), (2, 2));
    assert_eq!((y.width, y.height), (2, 2));
    assert_eq!(x.data, expected);
    assert_eq!(y.data.len(), 16);
}

#[test]
fn standardize_equal_area_resizes_second() {
    let b = numbered(4, 4);
    let (x, y) = standardize_size(numbered(2, 8), b);
    assert_eq!((x.width, x.height), (2, 8));
    assert_eq!((y.width, y.height), (2, 8));
    assert_eq!(y.data.len(), 64);
}

#[test]
fn standardize_same_dimensions_copies() {
    let a = numbered(3, 2);
    let b = solid(3, 2, GREEN);
    let (x, y) = standardize_size(a, b);
    assert_eq!(x.data, numbered(3, 2).data);
    assert_eq!(y.data, solid(3, 2, GREEN).data);
}

#[test]
fn standardize_shrinks_larger_first() {
    let big = numbered(4, 4);
    let original = big.data.clone();
    let (x, y) = standardize_size(big, solid(2, 2, GREEN));
    assert_eq!((x.width, x.height), (2, 2));
    assert_eq!(x.data.len(), 16);
    assert_ne!(x.data, original[..16].to_vec());
    assert_eq!(y.data, solid(2, 2, GREEN).data);
}

#[test]
fn standardize_solid_colour_survives_resize() {
    let (x, _) = standardize_size(solid(4, 4, RED), solid(2, 2, GREEN));
    assert_eq!(x.data, solid(2, 2, RED).data);
}

#[test]
fn bitmap_new_checks_shape() {
    assert!(Bitmap::new(2, 2, vec![0; 16]).is_some());
    assert!(Bitmap::new(2, 2, vec![0; 15]).is_none());
    assert!(Bitmap::new(0, 0, Vec::new()).is_none());
    assert!(Bitmap::new(0, 3, Vec::new()).is_none());
    assert_eq!(Bitmap::new(1, 3, vec![7; 12]).unwrap().dimensions(), (1, 3));
}

#[test]
fn floating_image_starts_zeroed() {
    let out = FloatingImage::new(3, 2, String::from("out.png"));
    assert_eq!(out.data, vec![0u8; 24]);
    assert_eq!((out.width, out.height), (3, 2));
    assert_eq!(out.name, "out.png");
}

#[test]
fn set_data_rejects_oversized_buffer() {
    let mut out = FloatingImage::new(2, 2, String::from("out.png"));
    assert_eq!(out.set_data(vec![1u8; 17]), Err(ImageDataErrors::BufferTooSmall));
    assert_eq!(out.data, vec![0u8; 16]);
}

#[test]
fn set_data_accepts_exact_and_shorter() {
    let mut out = FloatingImage::new(2, 2, String::from("out.png"));
    assert_eq!(out.set_data(vec![9u8; 16]), Ok(()));
    assert_eq!(out.data, vec![9u8; 16]);
    let mut short = FloatingImage::new(2, 2, String::from("short.png"));
    assert_eq!(short.set_data(vec![5u8; 4]), Ok(()));
    assert_eq!(short.data, vec![5u8; 4]);
}

#[test]
fn check_formats_compares_tags() {
    assert_eq!(check_formats(&ImageFormat::Png, &ImageFormat::Png), Ok(()));
    assert_eq!(
        check_formats(&ImageFormat::Png, &ImageFormat::Jpeg),
        Err(ImageDataErrors::DifferentImageFormats)
    );
}

#[test]
fn build_output_two_by_two_scenario() {
    let out = build_output(
        solid(2, 2, RED),
        &ImageFormat::Png,
        solid(2, 2, GREEN),
        &ImageFormat::Png,
        String::from("out.png"),
    )
    .unwrap();
    assert_eq!((out.width, out.height), (2, 2));
    assert_eq!(
        out.data,
        vec![255, 0, 0, 255, 0, 255, 0, 255, 255, 0, 0, 255, 0, 255, 0, 255]
    );
    assert_eq!(out.name, "out.png");
}

#[test]
fn build_output_shrinks_larger_image() {
    let out = build_output(
        solid(4, 4, RED),
        &ImageFormat::Png,
        solid(2, 2, GREEN),
        &ImageFormat::Png,
        String::from("out.png"),
    )
    .unwrap();
    assert_eq!((out.width, out.height), (2, 2));
    assert_eq!(out.data.len(), 16);
}

#[test]
fn build_output_rejects_mixed_formats() {
    let r = build_output(
        solid(4, 4, RED),
        &ImageFormat::Png,
        solid(2, 2, GREEN),
        &ImageFormat::Jpeg,
        String::from("out.png"),
    );
    assert!(matches!(r, Err(ImageDataErrors::DifferentImageFormats)));
}

#[test]
fn error_names() {
    assert_eq!(ImageDataErrors::BufferTooSmall.name(), "BufferTooSmall");
    assert_eq!(ImageDataErrors::DifferentImageFormats.name(), "DifferentImageFormats");
}
