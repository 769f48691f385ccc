//! A library for non-destructive RAW photo editing.
//!
//! A decoded RAW file yields an immutable source image together with its
//! metadata.  Callers append edit operations (exposure, contrast, rotation)
//! to a log; every render replays the most recent operation of each kind, in
//! a fixed photographic order, over a fresh copy of the source image, and
//! serializes the result as 8-bit RGBA bytes.

pub mod decode;
pub mod editor;
pub mod edits;
pub mod image_processor;
pub mod laws;
pub mod operation_type;
pub mod source_image;
pub mod transform;
