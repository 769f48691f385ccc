//! The library's laws: properties of the edit pipeline, stated over the
//! specification functions that the public contracts use.

use crate::decode::oriented_frame;
use crate::edits::{kind_of, last_of_kind, lemma_last_of_kind_push, EditOperation};
use crate::image_processor::{render_bytes, rendered_frame, rotated_frame};
use crate::operation_type::OperationType;
use crate::source_image::{rgba_bytes, rot270, rot90, Frame};
use crate::transform::{contrasted, exposed};
use vstd::prelude::*;

verus! {

/// A render with no edits issued is the identity render: it keeps the
/// source frame's dimensions and serializes the source's own pixel values,
/// reinterpreted at 8-bit depth.
pub proof fn lemma_identity_render(src: Frame)
    ensures
        rendered_frame(src, Seq::<EditOperation>::empty()) == src,
        render_bytes(src, Seq::<EditOperation>::empty()) == rgba_bytes(src),
{
}

/// No operation of kind `k` in the log means no resolved operation of
/// kind `k`.
pub proof fn lemma_no_op_of_kind(log: Seq<EditOperation>, k: OperationType)
    requires
        forall|i: int| 0 <= i < log.len() ==> kind_of(#[trigger] log[i]) != k,
    ensures
        last_of_kind(log, k) is None,
    decreases log.len(),
{
    if log.len() > 0 {
        assert(kind_of(log.last()) != k);
        lemma_no_op_of_kind(log.drop_last(), k);
    }
}

/// Last write wins: of two operations of the same kind, only the later one
/// affects the render, whatever else the log holds.
pub proof fn lemma_last_write_wins(
    src: Frame,
    log: Seq<EditOperation>,
    earlier: EditOperation,
    later: EditOperation,
)
    requires
        kind_of(earlier) == kind_of(later),
    ensures
        render_bytes(src, log.push(earlier).push(later)) == render_bytes(src, log.push(later)),
        rendered_frame(src, log.push(earlier).push(later)) == rendered_frame(src, log.push(later)),
{
    let k1 = OperationType::Exposure;
    let k2 = OperationType::Contrast;
    let k3 = OperationType::Rotation;
    let k4 = OperationType::WhiteBalance;
    lemma_last_of_kind_push(log.push(earlier), later, k1);
    lemma_last_of_kind_push(log.push(earlier), later, k2);
    lemma_last_of_kind_push(log.push(earlier), later, k3);
    lemma_last_of_kind_push(log.push(earlier), later, k4);
    lemma_last_of_kind_push(log, earlier, k1);
    lemma_last_of_kind_push(log, earlier, k2);
    lemma_last_of_kind_push(log, earlier, k3);
    lemma_last_of_kind_push(log, earlier, k4);
    lemma_last_of_kind_push(log, later, k1);
    lemma_last_of_kind_push(log, later, k2);
    lemma_last_of_kind_push(log, later, k3);
    lemma_last_of_kind_push(log, later, k4);
}

/// Of a log that holds only exposure operations, only the last one affects
/// the render: the render equals that of a fresh session with the last
/// exposure alone issued.
pub proof fn lemma_exposure_last_write_wins(src: Frame, log: Seq<EditOperation>)
    requires
        log.len() > 0,
        forall|i: int| 0 <= i < log.len() ==> kind_of(#[trigger] log[i]) is Exposure,
    ensures
        render_bytes(src, log) == render_bytes(src, seq![log.last()]),
{
    assert(kind_of(log.last()) is Exposure);
    assert(last_of_kind(log, OperationType::Exposure) == Some(log.last()));
    let single = seq![log.last()];
    assert(single.last() == log.last());
    assert(last_of_kind(single, OperationType::Exposure) == Some(log.last()));
    lemma_no_op_of_kind(log, OperationType::Contrast);
    lemma_no_op_of_kind(log, OperationType::Rotation);
    lemma_no_op_of_kind(log, OperationType::WhiteBalance);
    lemma_no_op_of_kind(single, OperationType::Contrast);
    lemma_no_op_of_kind(single, OperationType::Rotation);
    lemma_no_op_of_kind(single, OperationType::WhiteBalance);
}

/// At the boundary multiplier of minus one half, the effective exposure
/// factor is zero and every channel value renders fully black.
pub proof fn lemma_exposure_black_at_negative_half(v: u16)
    ensures
        exposed(v, -500i32) == 0,
{
    assert(v * (crate::transform::PARAM_UNIT + 2 * (-500i32)) == 0) by (nonlinear_arith);
}

/// At the full positive multiplier the effective factor is three, and
/// every channel value from a third of the range upward saturates.
pub proof fn lemma_exposure_saturates(v: u16)
    requires
        v >= 21845,
    ensures
        exposed(v, 1000) == 65535,
{
    assert(v * (crate::transform::PARAM_UNIT + 2 * 1000i32) >= 21845 * 3000) by (nonlinear_arith)
        requires
            v >= 21845,
    ;
    vstd::arithmetic::div_mod::lemma_div_is_ordered(
        65535500,
        v * (crate::transform::PARAM_UNIT + 2 * 1000i32) + 500,
        1000,
    );
}

/// At contrast level zero the transform is the identity on every channel
/// value.
pub proof fn lemma_contrast_identity_at_zero(v: u16)
    ensures
        contrasted(v, 0) == v,
{
    vstd::arithmetic::div_mod::lemma_fundamental_div_mod_converse_div(
        1000 * v + 500,
        1000,
        v as int,
        500,
    );
}

/// Mid-gray is a fixed point of the contrast transform at every level.
pub proof fn lemma_contrast_fixed_point_at_mean(c: i32)
    ensures
        contrasted(32767, c) == 32767,
{
    assert((32767 - 32767) * (1000 + c) == 0);
}

/// Issuing a rotation by 90 and then by 270 degrees rotates once by 270:
/// the later rotation supersedes the earlier one, so a width-by-height
/// frame renders at height-by-width, not at the original dimensions.
pub proof fn lemma_rotation_last_write_wins(src: Frame)
    ensures
        rendered_frame(
            src,
            seq![
                EditOperation::Rotation { angle: 90 },
                EditOperation::Rotation { angle: 270 },
            ],
        ) == rot270(src),
        rendered_frame(
            src,
            seq![
                EditOperation::Rotation { angle: 90 },
                EditOperation::Rotation { angle: 270 },
            ],
        ).width == src.height,
        rendered_frame(
            src,
            seq![
                EditOperation::Rotation { angle: 90 },
                EditOperation::Rotation { angle: 270 },
            ],
        ).height == src.width,
{
    let log = seq![
        EditOperation::Rotation { angle: 90 },
        EditOperation::Rotation { angle: 270 },
    ];
    assert(log.last() == EditOperation::Rotation { angle: 270 });
    assert(last_of_kind(log, OperationType::Rotation) == Some(
        EditOperation::Rotation { angle: 270 },
    ));
    lemma_no_op_of_kind(log, OperationType::Exposure);
    lemma_no_op_of_kind(log, OperationType::Contrast);
    lemma_no_op_of_kind(log, OperationType::WhiteBalance);
}

/// Rendering is a pure function of the source frame and the edit log, and
/// a render changes neither; hence two renders with no edits in between
/// yield byte-identical output.
pub proof fn lemma_render_idempotent(
    src: Frame,
    log: Seq<EditOperation>,
    first: Seq<u8>,
    second: Seq<u8>,
)
    requires
        first == render_bytes(src, log),
        second == render_bytes(src, log),
    ensures
        first == second,
{
}

/// Orientation normalization: tag values 5 and 6 rotate the decoded frame
/// 90 degrees clockwise, 7 and 8 rotate it 270 degrees, and tag 1 — like
/// a missing tag — leaves it unchanged.
pub proof fn lemma_orientation_normalization(f: Frame)
    ensures
        oriented_frame(f, Some(5)) == rot90(f),
        oriented_frame(f, Some(6)) == rot90(f),
        oriented_frame(f, Some(7)) == rot270(f),
        oriented_frame(f, Some(8)) == rot270(f),
        oriented_frame(f, Some(1)) == f,
        oriented_frame(f, None) == f,
{
}

/// Any orientation tag outside the recognized set is accepted and treated
/// as "no rotation", not as an error.
pub proof fn lemma_orientation_unrecognized(f: Frame, tag: u16)
    requires
        tag != 5,
        tag != 6,
        tag != 7,
        tag != 8,
    ensures
        oriented_frame(f, Some(tag)) == f,
{
}

/// A rotation by an unrecognized angle — zero included — is a no-op at
/// render time, not an error.
pub proof fn lemma_unknown_rotation_noop(f: Frame, angle: u16)
    requires
        angle != 90,
        angle != 180,
        angle != 270,
    ensures
        rotated_frame(f, angle) == f,
{
}

} // verus!
