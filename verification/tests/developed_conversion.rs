//! Tests of the conversion from a developed image to the library's source
//! representation, exercised with images built through the image crate.

use image::{DynamicImage, ImageBuffer};
use raw_processor::decode::{source_from_dynamic, DecodeError};

#[test]
fn rgb16_image_converts_sample_for_sample() {
    let samples: Vec<u16> = vec![100, 200, 300, 40000, 50000, 60000];
    let buffer = ImageBuffer::from_raw(2, 1, samples.clone()).unwrap();
    let converted = source_from_dynamic(DynamicImage::ImageRgb16(buffer)).unwrap();
    assert_eq!(converted.width, 2);
    assert_eq!(converted.height, 1);
    assert_eq!(converted.data, samples);
}

#[test]
fn luma16_image_replicates_the_gray_channel() {
    let buffer = ImageBuffer::from_raw(2, 1, vec![123u16, 60000]).unwrap();
    let converted = source_from_dynamic(DynamicImage::ImageLuma16(buffer)).unwrap();
    assert_eq!(converted.width, 2);
    assert_eq!(converted.height, 1);
    assert_eq!(converted.data, vec![123, 123, 123, 60000, 60000, 60000]);
}

#[test]
fn rgba16_image_drops_the_alpha_channel() {
    let buffer = ImageBuffer::from_raw(1, 1, vec![100u16, 200, 300, 65535]).unwrap();
    let converted = source_from_dynamic(DynamicImage::ImageRgba16(buffer)).unwrap();
    assert_eq!(converted.data, vec![100, 200, 300]);
}

#[test]
fn oversized_buffer_is_rejected() {
    // a buffer longer than its stated 1x1 dimensions require
    let buffer = ImageBuffer::from_raw(1, 1, vec![1u16, 2, 3, 4, 5]).unwrap();
    let result = source_from_dynamic(DynamicImage::ImageRgb16(buffer));
    assert!(matches!(result, Err(DecodeError::ImageExtractionFailure(_))));
}
