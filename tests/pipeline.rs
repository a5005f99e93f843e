use image_compressor::{compress_image_bytes, compress_pixels, CompressionError, Rgb8Image};
use std::io::Cursor;

fn textured_png(width: u32, height: u32) -> Vec<u8> {
    let img = image::RgbImage::from_fn(width, height, |x, y| {
        image::Rgb([(x * 7 % 256) as u8, (y * 13 % 256) as u8, ((x * y) % 251) as u8])
    });
    let mut buf = Vec::new();
    image::DynamicImage::ImageRgb8(img)
        .write_to(&mut Cursor::new(&mut buf), image::ImageOutputFormat::Png)
        .unwrap();
    buf
}

fn is_framed(b: &[u8]) -> bool {
    b.len() >= 4 && b[0] == 0xFF && b[1] == 0xD8 && b[b.len() - 2] == 0xFF && b[b.len() - 1] == 0xD9
}

#[test]
fn png_becomes_decodable_jpeg() {
    let png = textured_png(40, 24);
    for q in [1u8, 50, 100] {
        let out = compress_image_bytes(&png, q).unwrap();
        assert!(is_framed(&out));
        assert_eq!(image::guess_format(&out).unwrap(), image::ImageFormat::Jpeg);
        let back = image::load_from_memory(&out).unwrap();
        assert_eq!((back.width(), back.height()), (40, 24));
    }
}

#[test]
fn alpha_and_sixteen_bit_input_is_normalised() {
    let img = image::ImageBuffer::<image::Rgba<u16>, Vec<u16>>::from_fn(9, 5, |x, y| {
        image::Rgba([(x * 5000) as u16, (y * 9000) as u16, 1234, 100])
    });
    let mut buf = Vec::new();
    image::DynamicImage::ImageRgba16(img)
        .write_to(&mut Cursor::new(&mut buf), image::ImageOutputFormat::Png)
        .unwrap();
    let out = compress_image_bytes(&buf, 80).unwrap();
    assert!(is_framed(&out));
    let back = image::load_from_memory(&out).unwrap();
    assert_eq!((back.width(), back.height()), (9, 5));
}

#[test]
fn empty_input_is_a_decode_error() {
    assert_eq!(compress_image_bytes(&[], 80), Err(CompressionError::Decode));
    assert_eq!(compress_image_bytes(&[], 1), Err(CompressionError::Decode));
}

#[test]
fn noise_is_a_decode_error() {
    let noise: Vec<u8> = (0..2000u32).map(|i| (i.wrapping_mul(2654435761) >> 13) as u8).collect();
    assert_eq!(compress_image_bytes(&noise, 80), Err(CompressionError::Decode));
}

#[test]
fn truncated_png_is_a_decode_error() {
    let png = textured_png(30, 30);
    assert_eq!(compress_image_bytes(&png[..40], 80), Err(CompressionError::Decode));
}

#[test]
fn lower_quality_is_not_larger() {
    let png = textured_png(64, 64);
    let low = compress_image_bytes(&png, 10).unwrap();
    let high = compress_image_bytes(&png, 90).unwrap();
    assert!(low.len() <= high.len());
}

#[test]
fn pixels_encode_to_jpeg() {
    let img = Rgb8Image { width: 2, height: 2, pixels: vec![255, 0, 0, 0, 255, 0, 0, 0, 255, 9, 9, 9] };
    let out = compress_pixels(&img, 75).unwrap();
    assert!(is_framed(&out));
    assert_ne!(out, img.pixels);
    let back = image::load_from_memory(&out).unwrap();
    assert_eq!((back.width(), back.height()), (2, 2));
}

#[test]
fn same_pixels_same_quality_same_bytes() {
    let img = Rgb8Image { width: 3, height: 1, pixels: vec![1, 2, 3, 4, 5, 6, 7, 8, 9] };
    assert_eq!(compress_pixels(&img, 60), compress_pixels(&img, 60));
}

#[test]
fn too_wide_for_jpeg_is_an_encode_error() {
    let img = Rgb8Image { width: 65536, height: 1, pixels: vec![0; 3 * 65536] };
    assert_eq!(compress_pixels(&img, 80), Err(CompressionError::Encode));
    let edge = Rgb8Image { width: 65535, height: 1, pixels: vec![0; 3 * 65535] };
    assert!(compress_pixels(&edge, 80).is_ok());
}

#[test]
fn error_messages() {
    assert_eq!(
        CompressionError::Decode.message(),
        "Failed to decode input image. The format may be unsupported or the data is corrupted."
    );
    assert_eq!(CompressionError::Encode.message(), "Failed to encode image to JPEG format.");
}

#[test]
fn grayscale_input_becomes_rgb_jpeg() {
    let img = image::GrayImage::from_fn(12, 7, |x, y| image::Luma([(x * 20 + y) as u8]));
    let mut buf = Vec::new();
    image::DynamicImage::ImageLuma8(img)
        .write_to(&mut Cursor::new(&mut buf), image::ImageOutputFormat::Png)
        .unwrap();
    let out = compress_image_bytes(&buf, 70).unwrap();
    let back = image::load_from_memory(&out).unwrap();
    assert_eq!(back.color(), image::ColorType::Rgb8);
    assert_eq!((back.width(), back.height()), (12, 7));
}

#[test]
fn decoded_grid_is_what_gets_encoded() {
    let png = textured_png(20, 10);
    let decoded = image::load_from_memory(&png).unwrap().to_rgb8();
    let grid = Rgb8Image { width: 20, height: 10, pixels: decoded.into_raw() };
    assert_eq!(compress_image_bytes(&png, 35), compress_pixels(&grid, 35));
}
