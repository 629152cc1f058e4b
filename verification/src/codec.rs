//! The image codec: a raw image becomes a PNG, and the PNG becomes text.

use crate::armor::{armor, armor_of, can_armor};
use crate::raw_image::{RawImage, RawImageView};
use image::{write_buffer_with_format, ExtendedColorType, ImageError, ImageFormat};
use std::io::Cursor;
use vstd::prelude::*;

verus! {

/// Why an image could not be encoded.
#[derive(Clone, Copy, Debug, PartialEq, Eq, Structural)]
pub enum CodecError {
    /// The buffer's length is not `width * height * 4`.
    DimensionMismatch,
    /// No PNG was produced, or it is too long to be armored. An image without
    /// pixels (a width or a height of zero) always ends here: a PNG cannot
    /// hold it.
    EncodeFailure,
}

/// The error type of the image crate, carried through unread.
#[verifier::external_type_specification]
#[verifier::external_body]
pub struct ExImageError(ImageError);

/// What the image crate's PNG encoder makes of a grid of RGBA pixels: the
/// bytes of the PNG, or nothing where it reports an error.
pub uninterp spec fn png_encoding(width: u32, height: u32, rgba: Seq<u8>) -> Option<Seq<u8>>;

/// The bytes of a PNG that the encoder returned, if it returned one.
pub open spec fn png_seen(outcome: Result<Vec<u8>, ImageError>) -> Option<Seq<u8>> {
    match outcome {
        Ok(png) => Some(png@),
        Err(_) => None,
    }
}

/// The text of an encoding result, or its error.
pub open spec fn text_seen(result: Result<String, CodecError>) -> Result<Seq<char>, CodecError> {
    match result {
        Ok(text) => Ok(text@),
        Err(e) => Err(e),
    }
}

/// What becomes of the PNG encoder's outcome: the armor of the PNG, or
/// `EncodeFailure` where there is no PNG or it is too long to be armored.
pub open spec fn armored_outcome(png: Option<Seq<u8>>) -> Result<Seq<char>, CodecError> {
    match png {
        Some(bytes) => if can_armor(bytes.len()) {
            Ok(armor_of(bytes))
        } else {
            Err(CodecError::EncodeFailure)
        },
        None => Err(CodecError::EncodeFailure),
    }
}

/// The encoding of an image: `DimensionMismatch` where the buffer does not
/// fit the dimensions, `EncodeFailure` where the image has no pixels, else
/// what becomes of its PNG.
pub open spec fn encoding_of(image: RawImageView) -> Result<Seq<char>, CodecError> {
    if !image.well_sized() {
        Err(CodecError::DimensionMismatch)
    } else if image.width == 0 || image.height == 0 {
        Err(CodecError::EncodeFailure)
    } else {
        armored_outcome(png_encoding(image.width, image.height, image.bytes))
    }
}

/// Calls `write_buffer_with_format` of the image crate, with RGBA pixels of
/// eight bits a channel, the PNG format and a buffer in memory to write to.
/// Trusted: that the outcome is a function of the dimensions and the bytes
/// (the encoder has no other input), and that the encoder reports an error
/// for a width or a height of zero. The call fails on a buffer whose length
/// does not fit the dimensions, which the precondition leaves out.
#[verifier::external_body]
fn png_bytes(width: u32, height: u32, rgba: &[u8]) -> (outcome: Result<Vec<u8>, ImageError>)
    requires
        rgba@.len() == width as nat * height as nat * 4,
    ensures
        png_seen(outcome) == png_encoding(width, height, rgba@),
        width == 0 || height == 0 ==> outcome is Err,
{
    let mut sink = Cursor::new(Vec::new());
    let written = write_buffer_with_format(
        &mut sink,
        rgba,
        width,
        height,
        ExtendedColorType::Rgba8,
        ImageFormat::Png,
    );
    written.map(|_| sink.into_inner())
}

/// Turns the PNG encoder's outcome into the text to send, or into the
/// codec's own error.
pub fn armor_png(outcome: Result<Vec<u8>, ImageError>) -> (result: Result<String, CodecError>)
    ensures
        text_seen(result) == armored_outcome(png_seen(outcome)),
{
    match outcome {
        Ok(png) => match armor(png.as_slice()) {
            Some(text) => Ok(text),
            None => Err(CodecError::EncodeFailure),
        },
        Err(_) => Err(CodecError::EncodeFailure),
    }
}

/// Encodes a raw image as a base64-encoded PNG.
///
/// Fails with `DimensionMismatch` exactly when the buffer's length is not
/// `width * height * 4`. Otherwise the result is the armor of the PNG that
/// the encoder makes of the pixels, or `EncodeFailure` where it makes none;
/// for an image of no pixels it makes none.
pub fn encode(image: &RawImage) -> (result: Result<String, CodecError>)
    ensures
        text_seen(result) == encoding_of(image@),
        result == Err::<String, CodecError>(CodecError::DimensionMismatch)
            <==> !image@.well_sized(),
{
    if !image.is_well_sized() {
        return Err(CodecError::DimensionMismatch);
    }
    armor_png(png_bytes(image.width, image.height, image.bytes.as_slice()))
}

} // verus!
