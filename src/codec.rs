//! The decode and encode capabilities, reached through the `image` crate.
//!
//! Everything in this module is trusted: each function below states what
//! the `image` crate does and makes the one call that does it.

use vstd::prelude::*;

verus! {

/// `image::ImageError`, carried through opaque: only whether a call failed is used.
#[verifier::external_type_specification]
#[verifier::external_body]
pub struct ExImageError(image::ImageError);

/// A decoded picture normalised to 8 bits per channel and three channels
/// (red, green, blue), stored row by row.
pub struct Rgb8Image {
    pub width: u32,
    pub height: u32,
    pub pixels: Vec<u8>,
}

impl Rgb8Image {
    /// Three bytes for each of the `width * height` pixels, no more.
    pub open spec fn wf(&self) -> bool {
        self.pixels@.len() == 3 * (self.width as int) * (self.height as int)
    }

    /// Whether the JPEG baseline header can hold the dimensions.
    pub open spec fn fits_jpeg(&self) -> bool {
        self.width <= 65535 && self.height <= 65535
    }
}

/// Whether the `image` crate recognises `b` as an image and decodes it.
pub uninterp spec fn decodes(b: Seq<u8>) -> bool;

/// The bytes that the `image` crate's JPEG encoder writes for a grid of RGB
/// pixels of the given size at the given quality.
pub uninterp spec fn jpeg_encoding(pixels: Seq<u8>, width: u32, height: u32, quality: u8) -> Seq<u8>;

/// A JPEG stream: a start-of-image marker first and an end-of-image marker last.
pub open spec fn is_jpeg_framed(b: Seq<u8>) -> bool {
    &&& b.len() >= 4
    &&& b[0] == 0xFF && b[1] == 0xD8
    &&& b[b.len() - 2] == 0xFF && b[b.len() - 1] == 0xD9
}

/// The pixels, width and height of the picture that the `image` crate
/// decodes from `b`, once converted to 8-bit RGB.
pub uninterp spec fn rgb8_pixels(b: Seq<u8>) -> Seq<u8>;

pub uninterp spec fn rgb8_width(b: Seq<u8>) -> u32;

pub uninterp spec fn rgb8_height(b: Seq<u8>) -> u32;

/// Relies on `image::load_from_memory`, then `DynamicImage::to_rgb8`,
/// `ImageBuffer::dimensions` and `ImageBuffer::into_raw`. The format is
/// guessed from the leading bytes alone (no signature matches an empty
/// buffer) and the result depends on the bytes alone. `to_rgb8` copies the
/// picture into a new 8-bit RGB buffer of exactly `width * height` pixels
/// (alpha is dropped, deeper channels are scaled down to 8 bits).
#[verifier::external_body]
pub(crate) fn decode_rgb8(b: &[u8]) -> (r: Option<Rgb8Image>)
    ensures
        r is Some <==> decodes(b@),
        b@.len() == 0 ==> r is None,
        r is Some ==> r->0.wf() && r->0.pixels@ == rgb8_pixels(b@) && r->0.width == rgb8_width(b@)
            && r->0.height == rgb8_height(b@),
{
    let img = image::load_from_memory(b).ok()?;
    let rgb = img.to_rgb8();
    let (width, height) = rgb.dimensions();
    Some(Rgb8Image { width, height, pixels: rgb.into_raw() })
}

/// Relies on `JpegEncoder::new_with_quality` and `JpegEncoder::encode` with
/// `ColorType::Rgb8`, writing into a `Vec`: the marker SOI is written first and
/// EOI last; the only failure left when writing to memory is a dimension
/// that does not fit in 16 bits; a buffer of the wrong length would panic.
#[verifier::external_body]
pub(crate) fn encode_jpeg(img: &Rgb8Image, quality: u8) -> (r: Result<Vec<u8>, image::ImageError>)
    requires
        img.wf(),
    ensures
        r is Ok <==> img.fits_jpeg(),
        r is Ok ==> r->Ok_0@ == jpeg_encoding(img.pixels@, img.width, img.height, quality),
        r is Ok ==> is_jpeg_framed(r->Ok_0@),
{
    let mut out: Vec<u8> = Vec::new();
    let res = image::codecs::jpeg::JpegEncoder::new_with_quality(&mut out, quality).encode(
        &img.pixels,
        img.width,
        img.height,
        image::ColorType::Rgb8,
    );
    res.map(|_| out)
}

} // verus!
