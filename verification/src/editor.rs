//! A minimal single-shot editor: one exposure value and one rotation
//! angle, applied in that order to an image it owns.
//!
//! This is the small fixed-field counterpart of the log-based session in
//! [`crate::image_processor`]; both apply the same verified transforms.

use crate::image_processor::{exposed_frame, rotated_frame};
use crate::source_image::SourceImage;
use vstd::prelude::*;

verus! {

/// The editor's current settings: an exposure multiplier in thousandths
/// and a rotation angle in whole degrees clockwise.
pub struct Edits {
    exposure: i32,
    rotation: u16,
}

impl Edits {
    /// The stored exposure multiplier, in thousandths.
    pub closed spec fn exposure_spec(self) -> i32 {
        self.exposure
    }

    /// The stored rotation angle.
    pub closed spec fn rotation_spec(self) -> u16 {
        self.rotation
    }

    /// Neutral settings: no exposure change, no rotation.
    pub fn new() -> (r: Edits)
        ensures
            r.exposure_spec() == 0,
            r.rotation_spec() == 0,
    {
        Edits { exposure: 0, rotation: 0 }
    }

    /// The exposure multiplier, in thousandths.
    pub fn exposure(&self) -> (r: i32)
        ensures
            r == self.exposure_spec(),
    {
        self.exposure
    }

    /// Replaces the exposure multiplier.
    pub fn set_exposure(&mut self, value: i32)
        ensures
            final(self).exposure_spec() == value,
            final(self).rotation_spec() == old(self).rotation_spec(),
    {
        self.exposure = value;
    }

    /// The rotation angle, in whole degrees clockwise.
    pub fn rotation(&self) -> (r: u16)
        ensures
            r == self.rotation_spec(),
    {
        self.rotation
    }

    /// Replaces the rotation angle.
    pub fn set_rotation(&mut self, value: u16)
        ensures
            final(self).rotation_spec() == value,
            final(self).exposure_spec() == old(self).exposure_spec(),
    {
        self.rotation = value;
    }
}

/// An image together with the settings to develop it under.
pub struct Editor {
    pub dynamic_image: SourceImage,
    pub edits: Edits,
}

impl Editor {
    /// Develops the image: applies the exposure transform, then the
    /// rotation, each on a working copy — the stored image is untouched.
    pub fn process(&self) -> (r: SourceImage)
        requires
            self.dynamic_image.wf(),
        ensures
            r.wf(),
            r@ == rotated_frame(
                exposed_frame(self.dynamic_image@, self.edits.exposure_spec()),
                self.edits.rotation_spec(),
            ),
    {
        let mut img = SourceImage {
            width: self.dynamic_image.width,
            height: self.dynamic_image.height,
            data: self.dynamic_image.samples_copy(),
        };
        assert(img@ =~= self.dynamic_image@);
        crate::transform::exposure_buffer(&mut img.data, self.edits.exposure());
        let rotation = self.edits.rotation();
        if rotation == 90 {
            img = img.rotated90();
        } else if rotation == 180 {
            img = img.rotated180();
        } else if rotation == 270 {
            img = img.rotated270();
        }
        assert(img@ =~= rotated_frame(
            exposed_frame(self.dynamic_image@, self.edits.exposure_spec()),
            self.edits.rotation_spec(),
        ));
        img
    }
}

} // verus!
