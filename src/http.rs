//! What the HTTP front end decides for `POST /compress`: the quality taken
//! from the request header, and the reply for each outcome.

use vstd::prelude::*;
use vstd::string::StringExecFns;

use crate::codec::is_jpeg_framed;
use crate::decimal::{parse_u8, parsed_u8};
use crate::pipeline::{compress_image_bytes, compress_outcome, valid_quality, CompressionError};

verus! {

/// Quality used when the request names none, or none that is valid.
pub const DEFAULT_QUALITY: u8 = 80;

/// Largest request body accepted, in bytes (10 MiB).
pub const MAX_BODY_BYTES: usize = 10 * 1024 * 1024;

/// Name of the request header that carries the quality.
pub const QUALITY_HEADER: &'static str = "X-Compression-Quality";

pub open spec fn opt_bytes(value: Option<&[u8]>) -> Option<Seq<u8>> {
    match value {
        Some(b) => Some(b@),
        None => None,
    }
}

/// The quality chosen for a header value: the number it denotes where that
/// is in `[1, 100]`, the default otherwise.
pub open spec fn header_quality(value: Option<Seq<u8>>) -> u8 {
    match value {
        Some(s) => match parsed_u8(s) {
            Some(q) => if valid_quality(q) { q } else { DEFAULT_QUALITY },
            None => DEFAULT_QUALITY,
        },
        None => DEFAULT_QUALITY,
    }
}

/// The quality for a request, from the raw bytes of its quality header.
pub fn quality_from_header(value: Option<&[u8]>) -> (q: u8)
    ensures
        q == header_quality(opt_bytes(value)),
        valid_quality(q),
{
    match value {
        Some(b) => match parse_u8(b) {
            Some(q) => if 1 <= q && q <= 100 { q } else { DEFAULT_QUALITY },
            None => DEFAULT_QUALITY,
        },
        None => DEFAULT_QUALITY,
    }
}

/// A header value that does not denote a quality in `[1, 100]` (one that is
/// not a number, or is 0, or is over 100) selects the same quality as a
/// request without the header: the default.
pub proof fn lemma_invalid_header_is_default(v: Seq<u8>)
    requires
        !(parsed_u8(v) is Some && valid_quality(parsed_u8(v)->0)),
    ensures
        header_quality(Some(v)) == header_quality(None),
        header_quality(None) == DEFAULT_QUALITY,
{
}

/// The reply to a compression request.
pub enum CompressReply {
    /// 200, with the JPEG bytes.
    Compressed(Vec<u8>),
    /// 400: nothing to compress.
    EmptyBody,
    /// 413: the body is over the size limit.
    TooLarge,
    /// 422: the bytes could not be decoded or encoded.
    Unprocessable(CompressionError),
}

impl CompressReply {
    pub open spec fn status_spec(&self) -> u16 {
        match self {
            CompressReply::Compressed(_) => 200,
            CompressReply::EmptyBody => 400,
            CompressReply::TooLarge => 413,
            CompressReply::Unprocessable(_) => 422,
        }
    }

    /// The HTTP status code of the reply.
    pub fn status(&self) -> (r: u16)
        ensures
            r == self.status_spec(),
    {
        match self {
            CompressReply::Compressed(_) => 200,
            CompressReply::EmptyBody => 400,
            CompressReply::TooLarge => 413,
            CompressReply::Unprocessable(_) => 422,
        }
    }

    pub open spec fn text_spec(&self) -> Seq<char> {
        match self {
            CompressReply::Compressed(_) => Seq::empty(),
            CompressReply::EmptyBody => "Request body cannot be empty."@,
            CompressReply::TooLarge => "Request body is too large."@,
            CompressReply::Unprocessable(e) => "Failed to compress image: "@ + e.message_spec(),
        }
    }

    /// The text body of a reply that carries no image (empty for one that does).
    pub fn text(&self) -> (r: String)
        ensures
            r@ == self.text_spec(),
    {
        match self {
            CompressReply::Compressed(_) => String::new(),
            CompressReply::EmptyBody => "Request body cannot be empty.".to_owned(),
            CompressReply::TooLarge => "Request body is too large.".to_owned(),
            CompressReply::Unprocessable(e) => {
                let mut s = "Failed to compress image: ".to_owned();
                let m = e.message();
                s.append(m.as_str());
                s
            },
        }
    }
}

/// The reply for the outcome of the pipeline.
pub fn reply_for(outcome: Result<Vec<u8>, CompressionError>) -> (r: CompressReply)
    ensures
        match outcome {
            Ok(out) => r is Compressed && r->Compressed_0@ == out@,
            Err(e) => r is Unprocessable && r->Unprocessable_0 == e,
        },
{
    match outcome {
        Ok(out) => CompressReply::Compressed(out),
        Err(e) => CompressReply::Unprocessable(e),
    }
}

/// Whether `r` is the reply owed to a request with this body and quality
/// header: the pipeline's outcome at the header's quality, unless the body
/// is empty or too large.
pub open spec fn is_reply_to(body: Seq<u8>, header: Option<Seq<u8>>, r: CompressReply) -> bool {
    if body.len() == 0 {
        r is EmptyBody
    } else if body.len() > MAX_BODY_BYTES {
        r is TooLarge
    } else {
        match compress_outcome(body, header_quality(header)) {
            Ok(out) => r is Compressed && r->Compressed_0@ == out,
            Err(e) => r is Unprocessable && r->Unprocessable_0 == e,
        }
    }
}

/// Handles `POST /compress`: `body` is the request body, `quality_header` the
/// raw value of the quality header where the request has one.
pub fn compress_reply(body: &[u8], quality_header: Option<&[u8]>) -> (r: CompressReply)
    ensures
        is_reply_to(body@, opt_bytes(quality_header), r),
        r is Compressed ==> is_jpeg_framed(r->Compressed_0@),
{
    if body.len() == 0 {
        return CompressReply::EmptyBody;
    }
    if body.len() > MAX_BODY_BYTES {
        return CompressReply::TooLarge;
    }
    let quality = quality_from_header(quality_header);
    reply_for(compress_image_bytes(body, quality))
}

/// A request whose quality header does not denote a quality in `[1, 100]`
/// is owed the same reply as the same request without the header.
pub proof fn lemma_invalid_header_same_reply(body: Seq<u8>, v: Seq<u8>, r: CompressReply)
    requires
        !(parsed_u8(v) is Some && valid_quality(parsed_u8(v)->0)),
    ensures
        is_reply_to(body, Some(v), r) == is_reply_to(body, None, r),
{
    lemma_invalid_header_is_default(v);
}

/// The reply is 200 exactly when the body is of an accepted size and the
/// pipeline succeeds at the header's quality; a failed decode or encode is
/// 422, never a server error.
pub proof fn lemma_status_of_reply(body: Seq<u8>, header: Option<Seq<u8>>, r: CompressReply)
    requires
        is_reply_to(body, header, r),
    ensures
        (r.status_spec() == 200) == (0 < body.len() <= MAX_BODY_BYTES && compress_outcome(
            body,
            header_quality(header),
        ) is Ok),
        0 < body.len() <= MAX_BODY_BYTES && compress_outcome(body, header_quality(header)) is Err
            ==> r.status_spec() == 422,
{
}

/// Two replies owed to the same request agree in status, text and bytes.
pub proof fn lemma_reply_determined(body: Seq<u8>, header: Option<Seq<u8>>, r1: CompressReply, r2: CompressReply)
    requires
        is_reply_to(body, header, r1),
        is_reply_to(body, header, r2),
    ensures
        r1.status_spec() == r2.status_spec(),
        r1.text_spec() == r2.text_spec(),
        r1 is Compressed ==> r2 is Compressed && r1->Compressed_0@ == r2->Compressed_0@,
{
}

} // verus!
