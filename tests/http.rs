use image_compressor::{
    compress_image_bytes, compress_reply, quality_from_header, reply_for, CompressReply, CompressionError,
    DEFAULT_QUALITY, MAX_BODY_BYTES,
};
use std::io::Cursor;

fn small_png() -> Vec<u8> {
    let img = image::RgbImage::from_fn(16, 16, |x, y| image::Rgb([(x * 16) as u8, (y * 16) as u8, 128]));
    let mut buf = Vec::new();
    image::DynamicImage::ImageRgb8(img)
        .write_to(&mut Cursor::new(&mut buf), image::ImageOutputFormat::Png)
        .unwrap();
    buf
}

#[test]
fn header_quality_values() {
    assert_eq!(quality_from_header(None), 80);
    assert_eq!(DEFAULT_QUALITY, 80);
    assert_eq!(quality_from_header(Some(b"50")), 50);
    assert_eq!(quality_from_header(Some(b"1")), 1);
    assert_eq!(quality_from_header(Some(b"100")), 100);
    assert_eq!(quality_from_header(Some(b"+7")), 7);
    assert_eq!(quality_from_header(Some(b"0050")), 50);
}

#[test]
fn invalid_header_falls_back_to_default() {
    for v in [&b"150"[..], b"0", b"101", b"255", b"256", b"", b"+", b"abc", b" 50", b"50 ", b"-5", b"9x"] {
        assert_eq!(quality_from_header(Some(v)), quality_from_header(None));
    }
}

#[test]
fn header_150_behaves_like_no_header() {
    let png = small_png();
    let with = compress_reply(&png, Some(b"150"));
    let without = compress_reply(&png, None);
    assert_eq!(with.status(), 200);
    match (with, without) {
        (CompressReply::Compressed(a), CompressReply::Compressed(b)) => {
            assert_eq!(a, b);
            assert_eq!(a, compress_image_bytes(&png, 80).unwrap());
        }
        _ => panic!("expected two compressed replies"),
    }
}

#[test]
fn header_quality_reaches_the_encoder() {
    let png = small_png();
    match compress_reply(&png, Some(b"20")) {
        CompressReply::Compressed(a) => assert_eq!(a, compress_image_bytes(&png, 20).unwrap()),
        _ => panic!("expected a compressed reply"),
    }
}

#[test]
fn empty_body_is_bad_request() {
    let r = compress_reply(&[], Some(b"50"));
    assert_eq!(r.status(), 400);
    assert_eq!(r.text(), "Request body cannot be empty.");
}

#[test]
fn noise_body_is_unprocessable() {
    let noise: Vec<u8> = (0..512u32).map(|i| (i.wrapping_mul(40503) >> 3) as u8).collect();
    let r = compress_reply(&noise, None);
    assert_eq!(r.status(), 422);
    assert!(r.text().starts_with("Failed to compress image: "));
    assert!(r.text().contains("decode"));
}

#[test]
fn oversized_body_is_too_large() {
    let big = vec![0u8; MAX_BODY_BYTES + 1];
    let r = compress_reply(&big, None);
    assert_eq!(r.status(), 413);
    assert_eq!(MAX_BODY_BYTES, 10 * 1024 * 1024);
}

#[test]
fn reply_for_each_outcome() {
    let ok = reply_for(Ok(vec![1, 2, 3]));
    assert_eq!(ok.status(), 200);
    assert_eq!(ok.text(), "");
    let enc = reply_for(Err(CompressionError::Encode));
    assert_eq!(enc.status(), 422);
    assert_eq!(enc.text(), "Failed to compress image: Failed to encode image to JPEG format.");
}
