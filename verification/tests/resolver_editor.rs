//! Tests for log resolution (last write wins per kind) and for the
//! single-shot editor surface.

use raw_processor::editor::{Editor, Edits};
use raw_processor::edits::{resolve, EditOperation};
use raw_processor::source_image::SourceImage;

#[test]
fn resolve_keeps_the_latest_of_each_kind() {
    let log = vec![
        EditOperation::Exposure { multiplier: 200 },
        EditOperation::Rotation { angle: 90 },
        EditOperation::Exposure { multiplier: -100 },
        EditOperation::Rotation { angle: 270 },
        EditOperation::Exposure { multiplier: 50 },
    ];
    let resolved = resolve(&log);
    assert_eq!(resolved.exposure, Some(EditOperation::Exposure { multiplier: 50 }));
    assert_eq!(resolved.rotation, Some(EditOperation::Rotation { angle: 270 }));
    assert_eq!(resolved.contrast, None);
    assert_eq!(resolved.white_balance, None);
}

#[test]
fn resolve_empty_log_is_empty() {
    let resolved = resolve(&Vec::new());
    assert_eq!(resolved.exposure, None);
    assert_eq!(resolved.contrast, None);
    assert_eq!(resolved.rotation, None);
    assert_eq!(resolved.white_balance, None);
}

#[test]
fn edits_defaults_are_neutral() {
    let edits = Edits::new();
    assert_eq!(edits.exposure(), 0);
    assert_eq!(edits.rotation(), 0);
}

#[test]
fn edits_setters_overwrite() {
    let mut edits = Edits::new();
    edits.set_exposure(250);
    edits.set_rotation(180);
    assert_eq!(edits.exposure(), 250);
    assert_eq!(edits.rotation(), 180);
    edits.set_exposure(-100);
    assert_eq!(edits.exposure(), -100);
    assert_eq!(edits.rotation(), 180);
}

#[test]
fn editor_neutral_settings_copy_the_image() {
    let image = SourceImage::from_parts(1, 1, vec![1000, 2000, 3000]).unwrap();
    let editor = Editor { dynamic_image: image, edits: Edits::new() };
    let developed = editor.process();
    assert_eq!(developed.data, vec![1000, 2000, 3000]);
    // the stored image is untouched
    assert_eq!(editor.dynamic_image.data, vec![1000, 2000, 3000]);
}

#[test]
fn editor_applies_exposure_then_rotation() {
    let image = SourceImage::from_parts(2, 1, vec![1000, 2000, 3000, 4000, 5000, 6000]).unwrap();
    let mut edits = Edits::new();
    edits.set_exposure(250);
    edits.set_rotation(180);
    let editor = Editor { dynamic_image: image, edits };
    let developed = editor.process();
    assert_eq!(developed.width, 2);
    assert_eq!(developed.height, 1);
    // exposure scales by 1.5, then the 180-degree rotation reverses pixels
    assert_eq!(developed.data, vec![6000, 7500, 9000, 1500, 3000, 4500]);
}
