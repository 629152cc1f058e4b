use base64::engine::general_purpose::STANDARD;
use base64::Engine;
use clipboard_watcher::codec::armor_png;
use clipboard_watcher::{encode, CodecError, RawImage};
use image::error::{ParameterError, ParameterErrorKind};
use image::ImageError;

fn decode_grid(text: &str) -> (u32, u32, Vec<u8>) {
    let png = STANDARD.decode(text).expect("valid base64");
    let grid = image::load_from_memory(&png).expect("valid png").to_rgba8();
    (grid.width(), grid.height(), grid.into_raw())
}

fn varied_pixels(width: u32, height: u32) -> Vec<u8> {
    let mut bytes = Vec::new();
    for y in 0..height {
        for x in 0..width {
            bytes.push((x * 16) as u8);
            bytes.push((y * 16) as u8);
            bytes.push((x * y) as u8);
            bytes.push((y * width + x) as u8);
        }
    }
    bytes
}

#[test]
fn one_pixel_round_trip() {
    let bytes = vec![10u8, 20, 30, 40];
    let text = encode(&RawImage::new(1, 1, bytes.clone())).expect("one pixel encodes");
    assert_eq!(decode_grid(&text), (1, 1, bytes));
}

#[test]
fn sixteen_by_sixteen_round_trip_with_every_alpha() {
    let bytes = varied_pixels(16, 16);
    let mut alphas: Vec<u8> = bytes.iter().skip(3).step_by(4).copied().collect();
    alphas.sort();
    alphas.dedup();
    assert_eq!(alphas.len(), 256);
    let text = encode(&RawImage::new(16, 16, bytes.clone())).expect("the grid encodes");
    assert_eq!(decode_grid(&text), (16, 16, bytes));
}

#[test]
fn wide_and_tall_grids_round_trip() {
    let wide = varied_pixels(7, 3);
    let text = encode(&RawImage::new(7, 3, wide.clone())).expect("the grid encodes");
    assert_eq!(decode_grid(&text), (7, 3, wide));
    let tall = varied_pixels(3, 7);
    let text = encode(&RawImage::new(3, 7, tall.clone())).expect("the grid encodes");
    assert_eq!(decode_grid(&text), (3, 7, tall));
}

#[test]
fn transparent_pixels_keep_their_colour() {
    let bytes = vec![255u8, 0, 0, 0, 0, 255, 0, 0, 0, 0, 255, 0, 7, 8, 9, 0];
    let text = encode(&RawImage::new(2, 2, bytes.clone())).expect("the grid encodes");
    assert_eq!(decode_grid(&text), (2, 2, bytes));
}

#[test]
fn encoded_image_is_an_armored_png() {
    let text = encode(&RawImage::new(1, 1, vec![0, 0, 0, 255])).expect("one pixel encodes");
    assert!(text.starts_with("iVBORw0KGgo"));
    assert_eq!(text.len() % 4, 0);
    assert!(!text.contains('\n'));
    let png = STANDARD.decode(&text).expect("valid base64");
    assert_eq!(&png[..8], &[0x89, b'P', b'N', b'G', 0x0d, 0x0a, 0x1a, 0x0a]);
}

#[test]
fn encoding_is_the_same_each_time() {
    let image = RawImage::new(16, 16, varied_pixels(16, 16));
    assert_eq!(encode(&image), encode(&image));
    assert_eq!(encode(&image), encode(&image.clone()));
}

#[test]
fn short_buffer_is_a_dimension_mismatch() {
    let image = RawImage::new(2, 2, vec![0u8; 15]);
    assert_eq!(encode(&image), Err(CodecError::DimensionMismatch));
    assert!(!image.is_well_sized());
}

#[test]
fn long_buffer_is_a_dimension_mismatch() {
    let image = RawImage::new(2, 2, vec![0u8; 17]);
    assert_eq!(encode(&image), Err(CodecError::DimensionMismatch));
    let image = RawImage::new(1, 1, vec![0u8; 8]);
    assert_eq!(encode(&image), Err(CodecError::DimensionMismatch));
}

#[test]
fn bytes_without_dimensions_are_a_dimension_mismatch() {
    assert_eq!(encode(&RawImage::new(0, 0, vec![0u8; 4])), Err(CodecError::DimensionMismatch));
    assert_eq!(encode(&RawImage::new(0, 3, vec![0u8; 12])), Err(CodecError::DimensionMismatch));
}

#[test]
fn dimensions_without_bytes_are_a_dimension_mismatch() {
    assert_eq!(encode(&RawImage::new(1, 1, Vec::new())), Err(CodecError::DimensionMismatch));
}

#[test]
fn huge_dimensions_do_not_wrap_around() {
    let image = RawImage::new(u32::MAX, u32::MAX, vec![0u8; 4]);
    assert_eq!(encode(&image), Err(CodecError::DimensionMismatch));
    let image = RawImage::new(0x8000_0000, 0x8000_0000, Vec::new());
    assert_eq!(encode(&image), Err(CodecError::DimensionMismatch));
    let image = RawImage::new(0x4000_0000, 4, Vec::new());
    assert_eq!(encode(&image), Err(CodecError::DimensionMismatch));
}

#[test]
fn image_without_pixels_is_an_encode_failure() {
    let empty = RawImage::new(0, 0, Vec::new());
    assert!(empty.is_well_sized());
    assert_eq!(encode(&empty), Err(CodecError::EncodeFailure));
    assert_eq!(encode(&RawImage::new(0, 5, Vec::new())), Err(CodecError::EncodeFailure));
    assert_eq!(encode(&RawImage::new(5, 0, Vec::new())), Err(CodecError::EncodeFailure));
}

#[test]
fn well_sized_is_width_times_height_times_four() {
    assert!(RawImage::new(3, 5, vec![0u8; 60]).is_well_sized());
    assert!(!RawImage::new(3, 5, vec![0u8; 59]).is_well_sized());
    assert!(!RawImage::new(3, 5, vec![0u8; 61]).is_well_sized());
    assert!(!RawImage::new(3, 5, vec![0u8; 15]).is_well_sized());
}

#[test]
fn armor_png_armors_what_the_encoder_made() {
    assert_eq!(armor_png(Ok(b"foobar".to_vec())), Ok(String::from("Zm9vYmFy")));
    assert_eq!(armor_png(Ok(Vec::new())), Ok(String::new()));
}

#[test]
fn armor_png_turns_the_encoder_error_into_encode_failure() {
    let error = ImageError::Parameter(ParameterError::from_kind(
        ParameterErrorKind::DimensionMismatch,
    ));
    assert_eq!(armor_png(Err(error)), Err(CodecError::EncodeFailure));
}
