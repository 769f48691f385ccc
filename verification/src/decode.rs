//! The decode orchestrator: raw file bytes in, metadata and an oriented
//! source image out.
//!
//! Bitstream decoding, demosaicing and color development are delegated to
//! the external RAW decoding library behind the trusted wrappers below;
//! everything after the developed pixels arrive — validation, orientation
//! normalization — is verified.

use crate::source_image::{rot270, rot90, Frame, SourceImage};
use vstd::prelude::*;

verus! {

#[verifier::external_type_specification]
#[verifier::external_body]
pub struct ExRawSource(rawler::rawsource::RawSource);

#[verifier::external_type_specification]
#[verifier::external_body]
pub struct ExRawMetadata(rawler::decoders::RawMetadata);

#[verifier::external_type_specification]
#[verifier::external_body]
pub struct ExRawImage(rawler::RawImage);

#[verifier::external_type_specification]
#[verifier::external_body]
pub struct ExDynamicImage(image::DynamicImage);

/// Why a decode call failed.  Decode errors abort session creation
/// entirely; no partial session is ever constructed.
#[derive(Debug, PartialEq, Eq)]
pub enum DecodeError {
    /// The byte stream is in no format the decoder recognizes.
    NoDecoder,
    /// The file's descriptive headers could not be read.
    MetadataFailure(String),
    /// The raw sensor image could not be extracted.
    ImageExtractionFailure(String),
    /// The opaque color-development step failed.
    DevelopmentFailure,
}

/// Relies on `rawler::rawsource::RawSource::new_from_slice`: wraps raw file
/// bytes as an in-memory source for the decoder.
#[verifier::external_body]
fn raw_source_from_bytes(data: &[u8]) -> (r: rawler::rawsource::RawSource) {
    rawler::rawsource::RawSource::new_from_slice(data)
}

/// Relies on `rawler::get_decoder` and `Decoder::raw_metadata`: obtains a
/// decoder for the source, or fails with `NoDecoder` when the format is
/// unrecognized, and reads the file's descriptive metadata, or fails with
/// `MetadataFailure` carrying the decoder's reason.
#[verifier::external_body]
fn rawler_metadata(src: &rawler::rawsource::RawSource) -> (r: Result<
    rawler::decoders::RawMetadata,
    DecodeError,
>)
    ensures
        r matches Err(e) ==> e is NoDecoder || e is MetadataFailure,
{
    let params = rawler::decoders::RawDecodeParams { image_index: 0 };
    match rawler::get_decoder(src) {
        Ok(decoder) => match decoder.raw_metadata(src, &params) {
            Ok(m) => Ok(m),
            Err(e) => Err(DecodeError::MetadataFailure(format!("{}", e))),
        },
        Err(_) => Err(DecodeError::NoDecoder),
    }
}

/// Relies on `rawler::get_decoder` and `Decoder::raw_image`: obtains a
/// decoder for the source, or fails with `NoDecoder` when the format is
/// unrecognized, and extracts the raw sensor image, or fails with
/// `ImageExtractionFailure` carrying the decoder's reason.
#[verifier::external_body]
fn rawler_raw_image(src: &rawler::rawsource::RawSource) -> (r: Result<
    rawler::RawImage,
    DecodeError,
>)
    ensures
        r matches Err(e) ==> e is NoDecoder || e is ImageExtractionFailure,
{
    let params = rawler::decoders::RawDecodeParams { image_index: 0 };
    match rawler::get_decoder(src) {
        Ok(decoder) => match decoder.raw_image(src, &params, false) {
            Ok(img) => Ok(img),
            Err(e) => Err(DecodeError::ImageExtractionFailure(format!("{}", e))),
        },
        Err(_) => Err(DecodeError::NoDecoder),
    }
}

/// Relies on `rawler::imgop::develop::RawDevelop::develop_intermediate` and
/// `Intermediate::to_dynamic_image`: runs the default development pipeline
/// (demosaic, white balance, color transform) over the sensor image and
/// returns the displayable result, or `None` when development fails.  A
/// panic inside the development step propagates; the decode call treats the
/// step as opaque and non-retryable.
#[verifier::external_body]
fn develop_dynamic_image(img: &rawler::RawImage) -> (r: Option<image::DynamicImage>) {
    let dev = rawler::imgop::develop::RawDevelop::default();
    match dev.develop_intermediate(img) {
        Ok(intermediate) => intermediate.to_dynamic_image(),
        Err(_) => None,
    }
}

/// Relies on `image::DynamicImage::into_rgb16`, `ImageBuffer::width`,
/// `ImageBuffer::height` and `ImageBuffer::into_raw`: converts the
/// developed image to 16-bit RGB and hands out its dimensions and flat
/// sample buffer, which holds at least three samples per pixel.
#[verifier::external_body]
fn dynamic_image_rgb16(img: image::DynamicImage) -> (r: (u32, u32, Vec<u16>))
    ensures
        r.2@.len() >= 3 * (r.0 as int) * (r.1 as int),
{
    let buffer = img.into_rgb16();
    let width = buffer.width();
    let height = buffer.height();
    (width, height, buffer.into_raw())
}

/// Relies on the `exif.orientation` field of
/// `rawler::decoders::RawMetadata`: the EXIF orientation tag of the file,
/// when one was recorded.
#[verifier::external_body]
fn exif_orientation(metadata: &rawler::decoders::RawMetadata) -> (r: Option<u16>) {
    metadata.exif.orientation
}

/// Converts a developed image into the library's source representation:
/// 16-bit RGB samples, row-major, exactly three per pixel.  A buffer that
/// does not match its stated dimensions is rejected.
pub fn source_from_dynamic(img: image::DynamicImage) -> (r: Result<SourceImage, DecodeError>)
    ensures
        r matches Ok(s) ==> s.wf(),
        r matches Err(e) ==> e is ImageExtractionFailure,
{
    let (width, height, samples) = dynamic_image_rgb16(img);
    match SourceImage::from_parts(width, height, samples) {
        Some(image) => Ok(image),
        None => Err(
            DecodeError::ImageExtractionFailure(
                "developed image buffer does not match its dimensions".to_string(),
            ),
        ),
    }
}

/// The orientation-normalized frame: EXIF tag values 5 and 6 call for a 90
/// degree clockwise rotation, 7 and 8 for 270 degrees; any other value —
/// or a missing tag — leaves the frame unchanged.
pub open spec fn oriented_frame(f: Frame, orientation: Option<u16>) -> Frame {
    match orientation {
        Some(tag) => if tag == 5 || tag == 6 {
            rot90(f)
        } else if tag == 7 || tag == 8 {
            rot270(f)
        } else {
            f
        },
        None => f,
    }
}

/// Normalizes a decoded image's orientation from its EXIF tag.
pub fn orient_source(img: SourceImage, orientation: Option<u16>) -> (r: SourceImage)
    requires
        img.wf(),
    ensures
        r.wf(),
        r@ == oriented_frame(img@, orientation),
{
    match orientation {
        Some(tag) => {
            if tag == 5 || tag == 6 {
                img.rotated90()
            } else if tag == 7 || tag == 8 {
                img.rotated270()
            } else {
                img
            }
        },
        None => img,
    }
}

/// Decodes raw file bytes into the file's metadata and an immutable,
/// orientation-normalized source image.
///
/// The phases run in a fixed order: obtain a decoder and read metadata,
/// extract the sensor image, develop it to displayable 16-bit RGB, validate
/// the buffer, and normalize orientation.  Each phase's failure aborts the
/// call with the matching [`DecodeError`].
pub fn decode_raw_image(data: &[u8]) -> (r: Result<
    (rawler::decoders::RawMetadata, SourceImage),
    DecodeError,
>)
    ensures
        r matches Ok((metadata, img)) ==> img.wf(),
{
    let src = raw_source_from_bytes(data);
    let metadata = match rawler_metadata(&src) {
        Ok(m) => m,
        Err(e) => {
            return Err(e);
        },
    };
    let raw_image = match rawler_raw_image(&src) {
        Ok(img) => img,
        Err(e) => {
            return Err(e);
        },
    };
    let developed = match develop_dynamic_image(&raw_image) {
        Some(d) => d,
        None => {
            return Err(DecodeError::DevelopmentFailure);
        },
    };
    let base = match source_from_dynamic(developed) {
        Ok(img) => img,
        Err(e) => {
            return Err(e);
        },
    };
    let orientation = exif_orientation(&metadata);
    let oriented = orient_source(base, orientation);
    Ok((metadata, oriented))
}

} // verus!
