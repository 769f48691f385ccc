//! The editing session: an immutable decoded image, an append-only edit
//! log, and the render pipeline that replays the log over a fresh copy of
//! the image.

use crate::decode;
use crate::decode::DecodeError;
use crate::edits::{last_of_kind, resolve, EditOperation};
use crate::operation_type::OperationType;
use crate::source_image::{rgba_bytes, rot180, rot270, rot90, serialize_rgba, Frame, SourceImage};
use crate::transform::{contrast_buffer, contrasted_seq, exposure_buffer, exposed_seq};
use vstd::prelude::*;

verus! {

/// The exposure transform lifted to a whole frame.
pub open spec fn exposed_frame(f: Frame, multiplier: i32) -> Frame {
    Frame { width: f.width, height: f.height, data: exposed_seq(f.data, multiplier) }
}

/// The contrast transform lifted to a whole frame.
pub open spec fn contrasted_frame(f: Frame, level: i32) -> Frame {
    Frame { width: f.width, height: f.height, data: contrasted_seq(f.data, level) }
}

/// The rotation transform on a frame: 90, 180 and 270 degrees rotate
/// clockwise; any other angle — zero included — leaves the frame
/// unchanged, without error.
pub open spec fn rotated_frame(f: Frame, angle: u16) -> Frame {
    if angle == 90 {
        rot90(f)
    } else if angle == 180 {
        rot180(f)
    } else if angle == 270 {
        rot270(f)
    } else {
        f
    }
}

/// The frame a render produces: the most recent operation of each kind,
/// applied over the source frame in the fixed photographic order —
/// exposure, then contrast, then the reserved white-balance slot (never
/// applied), then rotation.  Kinds absent from the log are skipped.
pub open spec fn rendered_frame(src: Frame, log: Seq<EditOperation>) -> Frame {
    let after_exposure = match last_of_kind(log, OperationType::Exposure) {
        Some(EditOperation::Exposure { multiplier }) => exposed_frame(src, multiplier),
        _ => src,
    };
    let after_contrast = match last_of_kind(log, OperationType::Contrast) {
        Some(EditOperation::Contrast { level }) => contrasted_frame(after_exposure, level),
        _ => after_exposure,
    };
    match last_of_kind(log, OperationType::Rotation) {
        Some(EditOperation::Rotation { angle }) => rotated_frame(after_contrast, angle),
        _ => after_contrast,
    }
}

/// The byte sequence a render returns: the rendered frame serialized to
/// the interchange layout.
pub open spec fn render_bytes(src: Frame, log: Seq<EditOperation>) -> Seq<u8> {
    rgba_bytes(rendered_frame(src, log))
}

/// One editing session over one decoded image.
///
/// The source image and metadata are created atomically by decode and
/// never change afterwards; edits only append to the operation log.
pub struct ImageProcessor {
    metadata: rawler::decoders::RawMetadata,
    original_image: SourceImage,
    original_width: u32,
    original_height: u32,
    edited_width: u32,
    edited_height: u32,
    operations: Vec<EditOperation>,
}

impl ImageProcessor {
    /// The session's immutable source frame, the replay base of every render.
    pub closed spec fn source(self) -> SourceImage {
        self.original_image
    }

    /// The edit log, in issue order.
    pub closed spec fn log(self) -> Seq<EditOperation> {
        self.operations@
    }

    /// The decoder-derived metadata attached to the source image.
    pub closed spec fn metadata_spec(self) -> rawler::decoders::RawMetadata {
        self.metadata
    }

    /// The dimensions recorded by the most recent render (the source
    /// dimensions before any render).
    pub closed spec fn edited_dims(self) -> (int, int) {
        (self.edited_width as int, self.edited_height as int)
    }

    /// The source dimensions recorded at decode time.
    pub closed spec fn original_dims(self) -> (int, int) {
        (self.original_width as int, self.original_height as int)
    }

    /// The session invariant: the source image is well formed and the
    /// recorded original dimensions are its dimensions.
    pub closed spec fn wf(self) -> bool {
        &&& self.original_image.wf()
        &&& self.original_width == self.original_image.width
        &&& self.original_height == self.original_image.height
    }

    /// Decodes the given raw file bytes and opens a session over the
    /// result.  Decode failures abort session creation entirely.
    pub fn new(image_data: &[u8]) -> (r: Result<ImageProcessor, DecodeError>)
        ensures
            r matches Ok(p) ==> {
                &&& p.wf()
                &&& p.log() == Seq::<EditOperation>::empty()
                &&& p.edited_dims() == (p.source()@.width, p.source()@.height)
            },
    {
        let (metadata, image) = match decode::decode_raw_image(image_data) {
            Ok(decoded) => decoded,
            Err(e) => {
                return Err(e);
            },
        };
        Ok(
            ImageProcessor {
                metadata,
                original_width: image.width,
                original_height: image.height,
                edited_width: image.width,
                edited_height: image.height,
                original_image: image,
                operations: Vec::new(),
            },
        )
    }

    /// Opens a session over an already-decoded metadata/image pair,
    /// accepting exactly the well-formed images.
    pub fn from_decoded(metadata: rawler::decoders::RawMetadata, image: SourceImage) -> (r: Option<
        ImageProcessor,
    >)
        ensures
            match r {
                Some(p) => {
                    &&& p.wf()
                    &&& p.log() == Seq::<EditOperation>::empty()
                    &&& p.source() == image
                    &&& p.metadata_spec() == metadata
                    &&& p.edited_dims() == (image@.width, image@.height)
                },
                None => !image.wf(),
            },
    {
        proof {
            assert((image.width as int) * (image.height as int) <= 0xffffffff * 0xffffffff)
                by (nonlinear_arith)
                requires
                    0 <= image.width as int <= 0xffffffff,
                    0 <= image.height as int <= 0xffffffff,
            ;
        }
        let pixels: u64 = (image.width as u64) * (image.height as u64);
        if pixels > (usize::MAX as u64) / 4 {
            return None;
        }
        if (image.data.len() as u64) != 3 * pixels {
            return None;
        }
        Some(
            ImageProcessor {
                metadata,
                original_width: image.width,
                original_height: image.height,
                edited_width: image.width,
                edited_height: image.height,
                original_image: image,
                operations: Vec::new(),
            },
        )
    }

    /// The width recorded by the most recent render.
    pub fn width(&self) -> (r: u32)
        ensures
            r as int == self.edited_dims().0,
    {
        self.edited_width
    }

    /// The height recorded by the most recent render.
    pub fn height(&self) -> (r: u32)
        ensures
            r as int == self.edited_dims().1,
    {
        self.edited_height
    }

    /// The source image's width, fixed at decode time.
    pub fn original_width(&self) -> (r: u32)
        ensures
            r as int == self.original_dims().0,
            self.wf() ==> r as int == self.source()@.width,
    {
        self.original_width
    }

    /// The source image's height, fixed at decode time.
    pub fn original_height(&self) -> (r: u32)
        ensures
            r as int == self.original_dims().1,
            self.wf() ==> r as int == self.source()@.height,
    {
        self.original_height
    }

    /// Whether the session invariant holds; true of every session a
    /// constructor returns.
    pub fn well_formed(&self) -> (r: bool)
        ensures
            r == self.wf(),
    {
        let w = self.original_image.width;
        let h = self.original_image.height;
        proof {
            assert((w as int) * (h as int) <= 0xffffffff * 0xffffffff) by (nonlinear_arith)
                requires
                    0 <= w as int <= 0xffffffff,
                    0 <= h as int <= 0xffffffff,
            ;
        }
        let pixels: u64 = (w as u64) * (h as u64);
        pixels <= (usize::MAX as u64) / 4 && (self.original_image.data.len() as u64) == 3 * pixels
            && self.original_width == w && self.original_height == h
    }

    /// The decoder-derived metadata, read-only.
    pub fn metadata(&self) -> (r: &rawler::decoders::RawMetadata)
        ensures
            *r == self.metadata_spec(),
    {
        &self.metadata
    }

    /// Records an exposure edit; the multiplier is in thousandths of the
    /// caller-facing range.  Recording never fails and validates nothing:
    /// clamping happens at render time.
    pub fn set_exposure(&mut self, multiplier: i32)
        ensures
            final(self).log() == old(self).log().push(
                EditOperation::Exposure { multiplier },
            ),
            final(self).source() == old(self).source(),
            final(self).metadata_spec() == old(self).metadata_spec(),
            final(self).edited_dims() == old(self).edited_dims(),
            final(self).wf() == old(self).wf(),
    {
        self.operations.push(EditOperation::Exposure { multiplier });
    }

    /// Records a contrast edit; the level is in thousandths of the
    /// caller-facing range.
    pub fn set_contrast(&mut self, level: i32)
        ensures
            final(self).log() == old(self).log().push(EditOperation::Contrast { level }),
            final(self).source() == old(self).source(),
            final(self).metadata_spec() == old(self).metadata_spec(),
            final(self).edited_dims() == old(self).edited_dims(),
            final(self).wf() == old(self).wf(),
    {
        self.operations.push(EditOperation::Contrast { level });
    }

    /// Records a rotation edit, an angle in whole degrees clockwise.
    /// Unrecognized angles are recorded unchanged and ignored at render
    /// time.
    pub fn set_rotation(&mut self, angle: u16)
        ensures
            final(self).log() == old(self).log().push(EditOperation::Rotation { angle }),
            final(self).source() == old(self).source(),
            final(self).metadata_spec() == old(self).metadata_spec(),
            final(self).edited_dims() == old(self).edited_dims(),
            final(self).wf() == old(self).wf(),
    {
        self.operations.push(EditOperation::Rotation { angle });
    }

    /// Reserved: the saturation / white-balance category is a placeholder
    /// slot in the fixed application order and records nothing.
    pub fn set_saturation(&mut self, _level: i32)
        ensures
            *final(self) == *old(self),
    {
    }

    /// Renders the session: collapses the log to the most recent operation
    /// of each kind, applies them in the fixed order over a fresh copy of
    /// the immutable source image, records the resulting dimensions, and
    /// serializes the result to the interchange layout.
    pub fn apply_operations(&mut self) -> (r: Vec<u8>)
        requires
            old(self).wf(),
        ensures
            final(self).wf(),
            r@ == render_bytes(old(self).source()@, old(self).log()),
            final(self).log() == old(self).log(),
            final(self).source() == old(self).source(),
            final(self).metadata_spec() == old(self).metadata_spec(),
            final(self).edited_dims() == (
                rendered_frame(old(self).source()@, old(self).log()).width,
                rendered_frame(old(self).source()@, old(self).log()).height,
            ),
    {
        let ghost src_frame = self.original_image@;
        let ghost log = self.operations@;
        let resolved = resolve(&self.operations);
        let mut working = SourceImage {
            width: self.original_image.width,
            height: self.original_image.height,
            data: self.original_image.samples_copy(),
        };
        assert(working@ =~= src_frame);

        match resolved.exposure {
            Some(EditOperation::Exposure { multiplier }) => {
                exposure_buffer(&mut working.data, multiplier);
            },
            _ => {},
        }
        let ghost after_exposure = working@;

        match resolved.contrast {
            Some(EditOperation::Contrast { level }) => {
                contrast_buffer(&mut working.data, level);
            },
            _ => {},
        }
        let ghost after_contrast = working@;

        match resolved.rotation {
            Some(EditOperation::Rotation { angle }) => {
                if angle == 90 {
                    working = working.rotated90();
                } else if angle == 180 {
                    working = working.rotated180();
                } else if angle == 270 {
                    working = working.rotated270();
                }
            },
            _ => {},
        }
        assert(working@ =~= rendered_frame(src_frame, log));

        self.edited_width = working.width;
        self.edited_height = working.height;
        serialize_rgba(&working)
    }

    /// Renders the session; see [`Self::apply_operations`].
    pub fn process(&mut self) -> (r: Vec<u8>)
        requires
            old(self).wf(),
        ensures
            final(self).wf(),
            r@ == render_bytes(old(self).source()@, old(self).log()),
            final(self).log() == old(self).log(),
            final(self).source() == old(self).source(),
            final(self).metadata_spec() == old(self).metadata_spec(),
            final(self).edited_dims() == (
                rendered_frame(old(self).source()@, old(self).log()).width,
                rendered_frame(old(self).source()@, old(self).log()).height,
            ),
    {
        self.apply_operations()
    }
}

} // verus!
