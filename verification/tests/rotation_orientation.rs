//! Pixel-exact tests for the rotation primitives and for EXIF orientation
//! normalization.

use raw_processor::decode::orient_source;
use raw_processor::source_image::SourceImage;

// A 2x2 test image; each pixel holds three consecutive sample values.
const P00: [u16; 3] = [100, 101, 102];
const P10: [u16; 3] = [200, 201, 202];
const P01: [u16; 3] = [300, 301, 302];
const P11: [u16; 3] = [400, 401, 402];

fn square() -> SourceImage {
    let mut samples = Vec::new();
    for pixel in [P00, P10, P01, P11] {
        samples.extend_from_slice(&pixel);
    }
    SourceImage::from_parts(2, 2, samples).unwrap()
}

fn pixels(img: &SourceImage) -> Vec<[u16; 3]> {
    img.data.chunks(3).map(|c| [c[0], c[1], c[2]]).collect()
}

#[test]
fn rotate90_moves_left_column_to_top_row() {
    let rotated = square().rotated90();
    assert_eq!(rotated.width, 2);
    assert_eq!(rotated.height, 2);
    assert_eq!(pixels(&rotated), vec![P01, P00, P11, P10]);
}

#[test]
fn rotate180_reverses_pixels() {
    let rotated = square().rotated180();
    assert_eq!(pixels(&rotated), vec![P11, P01, P10, P00]);
}

#[test]
fn rotate270_moves_right_column_to_top_row() {
    let rotated = square().rotated270();
    assert_eq!(pixels(&rotated), vec![P10, P11, P00, P01]);
}

#[test]
fn rotate90_swaps_rectangular_dimensions() {
    let image = SourceImage::from_parts(3, 1, vec![1, 2, 3, 4, 5, 6, 7, 8, 9]).unwrap();
    let rotated = image.rotated90();
    assert_eq!(rotated.width, 1);
    assert_eq!(rotated.height, 3);
    // the single row becomes a single column, read top to bottom
    assert_eq!(rotated.data, vec![1, 2, 3, 4, 5, 6, 7, 8, 9]);
    let back = rotated.rotated270();
    assert_eq!(back.width, 3);
    assert_eq!(back.height, 1);
    assert_eq!(back.data, vec![1, 2, 3, 4, 5, 6, 7, 8, 9]);
}

#[test]
fn orientation_tag_six_rotates_90_clockwise() {
    let oriented = orient_source(square(), Some(6));
    assert_eq!(pixels(&oriented), vec![P01, P00, P11, P10]);
}

#[test]
fn orientation_tag_five_rotates_90_clockwise() {
    let oriented = orient_source(square(), Some(5));
    assert_eq!(pixels(&oriented), vec![P01, P00, P11, P10]);
}

#[test]
fn orientation_tags_seven_and_eight_rotate_270() {
    for tag in [7u16, 8] {
        let oriented = orient_source(square(), Some(tag));
        assert_eq!(pixels(&oriented), vec![P10, P11, P00, P01]);
    }
}

#[test]
fn orientation_tag_one_is_unchanged() {
    let oriented = orient_source(square(), Some(1));
    assert_eq!(pixels(&oriented), vec![P00, P10, P01, P11]);
}

#[test]
fn missing_or_unrecognized_orientation_is_unchanged() {
    let oriented = orient_source(square(), None);
    assert_eq!(pixels(&oriented), vec![P00, P10, P01, P11]);
    for tag in [0u16, 2, 3, 4, 9, 45, 1000] {
        let oriented = orient_source(square(), Some(tag));
        assert_eq!(pixels(&oriented), vec![P00, P10, P01, P11]);
    }
}
