//! End-to-end tests of the editing session: identity renders,
//! last-write-wins resolution, fixed application order, rotation
//! dimensions, and idempotence.

use raw_processor::image_processor::ImageProcessor;
use raw_processor::source_image::{scale_channel_8bit, serialize_rgba, SourceImage};
use rawler::decoders::RawMetadata;

fn make_image(width: u32, height: u32, samples: Vec<u16>) -> SourceImage {
    SourceImage::from_parts(width, height, samples).expect("well-formed test image")
}

fn make_session(width: u32, height: u32, samples: Vec<u16>) -> ImageProcessor {
    ImageProcessor::from_decoded(RawMetadata::default(), make_image(width, height, samples))
        .expect("well-formed test image")
}

fn scaled(v: u16) -> u8 {
    scale_channel_8bit(v)
}

#[test]
fn identity_render_single_pixel() {
    let mut session = make_session(1, 1, vec![1000, 2000, 3000]);
    let rendered = session.process();
    assert_eq!(rendered, vec![scaled(1000), scaled(2000), scaled(3000), 255]);
    assert_eq!(session.width(), 1);
    assert_eq!(session.height(), 1);
}

#[test]
fn identity_render_keeps_dimensions() {
    let samples: Vec<u16> = (0..(2 * 3 * 3)).map(|i| (i * 1000) as u16).collect();
    let mut session = make_session(2, 3, samples.clone());
    let rendered = session.process();
    assert_eq!(rendered.len(), 2 * 3 * 4);
    assert_eq!(session.width(), 2);
    assert_eq!(session.height(), 3);
    assert_eq!(session.original_width(), 2);
    assert_eq!(session.original_height(), 3);
    // the render is the source reinterpreted at 8-bit depth
    for p in 0..6 {
        for c in 0..3 {
            assert_eq!(rendered[4 * p + c], scaled(samples[3 * p + c]));
        }
        assert_eq!(rendered[4 * p + 3], 255);
    }
}

#[test]
fn exposure_last_write_wins() {
    let samples = vec![10000, 20000, 30000, 40000, 50000, 60000];
    let mut superseded = make_session(2, 1, samples.clone());
    superseded.set_exposure(200);
    superseded.set_exposure(-100);
    let mut fresh = make_session(2, 1, samples);
    fresh.set_exposure(-100);
    assert_eq!(superseded.process(), fresh.process());
}

#[test]
fn exposure_render_uses_multiplier() {
    let mut session = make_session(1, 1, vec![10000, 20000, 30000]);
    session.set_exposure(250);
    let rendered = session.process();
    assert_eq!(rendered, vec![scaled(15000), scaled(30000), scaled(45000), 255]);
}

#[test]
fn rotation_90_then_270_is_a_single_270() {
    let mut session = make_session(2, 1, vec![10000, 20000, 30000, 40000, 50000, 60000]);
    session.set_rotation(90);
    session.set_rotation(270);
    let rendered = session.process();
    // a single 270-degree rotation of a 2x1 image: dimensions swap
    assert_eq!(session.width(), 1);
    assert_eq!(session.height(), 2);
    // the right-hand pixel moves to the top
    assert_eq!(
        rendered,
        vec![scaled(40000), scaled(50000), scaled(60000), 255, scaled(10000), scaled(20000), scaled(30000), 255],
    );
    // the source dimensions stay as decoded
    assert_eq!(session.original_width(), 2);
    assert_eq!(session.original_height(), 1);
}

#[test]
fn unknown_rotation_angle_is_a_noop() {
    let samples = vec![10000, 20000, 30000, 40000, 50000, 60000];
    let mut rotated = make_session(2, 1, samples.clone());
    rotated.set_rotation(45);
    let mut plain = make_session(2, 1, samples);
    assert_eq!(rotated.process(), plain.process());
    assert_eq!(rotated.width(), 2);
    assert_eq!(rotated.height(), 1);
}

#[test]
fn unknown_rotation_supersedes_earlier_rotation() {
    let samples = vec![10000, 20000, 30000, 40000, 50000, 60000];
    let mut session = make_session(2, 1, samples.clone());
    session.set_rotation(90);
    session.set_rotation(45);
    let mut plain = make_session(2, 1, samples);
    assert_eq!(session.process(), plain.process());
}

#[test]
fn render_twice_is_byte_identical() {
    let mut session = make_session(2, 1, vec![10000, 20000, 30000, 40000, 50000, 60000]);
    session.set_exposure(300);
    session.set_contrast(150);
    session.set_rotation(180);
    let first = session.process();
    let second = session.process();
    assert_eq!(first, second);
}

#[test]
fn issue_order_across_kinds_does_not_matter() {
    let samples = vec![10000, 20000, 30000, 40000, 50000, 60000];
    let mut rotation_first = make_session(2, 1, samples.clone());
    rotation_first.set_rotation(90);
    rotation_first.set_exposure(500);
    let mut exposure_first = make_session(2, 1, samples);
    exposure_first.set_exposure(500);
    exposure_first.set_rotation(90);
    assert_eq!(rotation_first.process(), exposure_first.process());
}

#[test]
fn contrast_zero_renders_identically() {
    let samples = vec![10000, 20000, 30000, 40000, 50000, 60000];
    let mut contrasted = make_session(2, 1, samples.clone());
    contrasted.set_contrast(0);
    let mut plain = make_session(2, 1, samples);
    assert_eq!(contrasted.process(), plain.process());
}

#[test]
fn saturation_is_reserved_and_records_nothing() {
    let samples = vec![10000, 20000, 30000, 40000, 50000, 60000];
    let mut session = make_session(2, 1, samples.clone());
    session.set_saturation(500);
    let mut plain = make_session(2, 1, samples);
    assert_eq!(session.process(), plain.process());
}

#[test]
fn metadata_is_kept_verbatim() {
    let mut metadata = RawMetadata::default();
    metadata.make = "ACME".to_string();
    metadata.exif.orientation = Some(6);
    let session =
        ImageProcessor::from_decoded(metadata, make_image(1, 1, vec![1, 2, 3])).unwrap();
    assert_eq!(session.metadata().make, "ACME");
    assert_eq!(session.metadata().exif.orientation, Some(6));
}

#[test]
fn from_decoded_rejects_mismatched_buffer() {
    let image = SourceImage { width: 2, height: 2, data: vec![0u16; 5] };
    assert!(ImageProcessor::from_decoded(RawMetadata::default(), image).is_none());
}

#[test]
fn serialize_rgba_layout() {
    let image = make_image(1, 2, vec![100, 200, 300, 60000, 61000, 62000]);
    let bytes = serialize_rgba(&image);
    assert_eq!(
        bytes,
        vec![scaled(100), scaled(200), scaled(300), 255, scaled(60000), scaled(61000), scaled(62000), 255],
    );
}
