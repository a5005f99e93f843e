//! The compression pipeline: decode, normalise to 8-bit RGB, encode as JPEG.

use vstd::prelude::*;

use crate::codec::{
    decode_rgb8, decodes, encode_jpeg, is_jpeg_framed, jpeg_encoding, rgb8_height, rgb8_pixels, rgb8_width,
    Rgb8Image,
};

verus! {

/// Why a compression failed.
#[derive(Clone, Copy, Debug, PartialEq, Eq, Structural)]
pub enum CompressionError {
    /// The bytes are not an image in a recognised format, or are corrupt.
    Decode,
    /// The encoder refused the decoded picture.
    Encode,
}

pub open spec fn valid_quality(q: u8) -> bool {
    1 <= q <= 100
}

/// Whether the picture decoded from `b` fits the JPEG header's 16-bit sizes.
pub open spec fn fits_jpeg(b: Seq<u8>) -> bool {
    rgb8_width(b) <= 65535 && rgb8_height(b) <= 65535
}

/// The result of compressing `b` at quality `q`: decode, convert to 8-bit
/// RGB, encode as JPEG.
pub open spec fn compress_outcome(b: Seq<u8>, q: u8) -> Result<Seq<u8>, CompressionError> {
    if !decodes(b) {
        Err(CompressionError::Decode)
    } else if !fits_jpeg(b) {
        Err(CompressionError::Encode)
    } else {
        Ok(jpeg_encoding(rgb8_pixels(b), rgb8_width(b), rgb8_height(b), q))
    }
}

pub open spec fn outcome_view(r: Result<Vec<u8>, CompressionError>) -> Result<Seq<u8>, CompressionError> {
    match r {
        Ok(out) => Ok(out@),
        Err(e) => Err(e),
    }
}

/// Whether compression succeeds does not depend on the quality: a picture
/// that compresses at one quality compresses at every other.
pub proof fn lemma_success_independent_of_quality(b: Seq<u8>, q1: u8, q2: u8)
    ensures
        (compress_outcome(b, q1) is Ok) == (compress_outcome(b, q2) is Ok),
        compress_outcome(b, q1) is Err ==> compress_outcome(b, q1) == compress_outcome(b, q2),
{
}

impl CompressionError {
    pub open spec fn message_spec(&self) -> Seq<char> {
        match self {
            CompressionError::Decode =>
                "Failed to decode input image. The format may be unsupported or the data is corrupted."@,
            CompressionError::Encode => "Failed to encode image to JPEG format."@,
        }
    }

    /// A description of the step that failed.
    pub fn message(&self) -> (r: String)
        ensures
            r@ == self.message_spec(),
    {
        match self {
            CompressionError::Decode =>
                "Failed to decode input image. The format may be unsupported or the data is corrupted.".to_owned(),
            CompressionError::Encode => "Failed to encode image to JPEG format.".to_owned(),
        }
    }
}

/// Encodes an already normalised pixel grid as JPEG at `quality`.
pub fn compress_pixels(img: &Rgb8Image, quality: u8) -> (r: Result<Vec<u8>, CompressionError>)
    requires
        img.wf(),
        valid_quality(quality),
    ensures
        img.fits_jpeg() ==> r is Ok && r->Ok_0@ == jpeg_encoding(img.pixels@, img.width, img.height, quality),
        !img.fits_jpeg() ==> r == Err::<Vec<u8>, CompressionError>(CompressionError::Encode),
        r is Ok ==> is_jpeg_framed(r->Ok_0@),
{
    match encode_jpeg(img, quality) {
        Ok(out) => Ok(out),
        Err(_) => Err(CompressionError::Encode),
    }
}

/// Compresses the image held in `input_bytes` (any format that the decoder
/// recognises from the content) to JPEG at `quality`.
pub fn compress_image_bytes(input_bytes: &[u8], quality: u8) -> (r: Result<Vec<u8>, CompressionError>)
    requires
        valid_quality(quality),
    ensures
        outcome_view(r) == compress_outcome(input_bytes@, quality),
        input_bytes@.len() == 0 ==> r == Err::<Vec<u8>, CompressionError>(CompressionError::Decode),
        r is Ok ==> is_jpeg_framed(r->Ok_0@),
{
    let rgb = match decode_rgb8(input_bytes) {
        Some(rgb) => rgb,
        None => return Err(CompressionError::Decode),
    };
    compress_pixels(&rgb, quality)
}

} // verus!
