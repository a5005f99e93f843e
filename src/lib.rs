//! JPEG re-compression of arbitrary image bytes, with the decisions of its
//! HTTP and command-line front ends stated and proved.
//!
//! Decoding, colour conversion and JPEG encoding are done by the `image`
//! crate, reached through the small trusted surface in [`codec`].

pub mod args;
pub mod cli;
pub mod codec;
pub mod decimal;
pub mod http;
pub mod pipeline;

pub use args::{parse_args, ArgsError, CliArgs};
pub use cli::{answer_step, cli_quality, first_step, CliError, CliStep, DEFAULT_CLI_QUALITY};
pub use codec::Rgb8Image;
pub use decimal::parse_u8;
pub use http::{
    compress_reply, quality_from_header, reply_for, CompressReply, DEFAULT_QUALITY, MAX_BODY_BYTES,
    QUALITY_HEADER,
};
pub use pipeline::{compress_image_bytes, compress_pixels, CompressionError};
