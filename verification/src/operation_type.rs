//! The closed set of edit-operation kinds.

use vstd::prelude::*;

verus! {

/// Represents the different types of operations that can be performed on an
/// image.  At most one operation of each type is active in a render: later
/// operations of the same type supersede earlier ones.
#[derive(Clone, Copy, Debug, PartialEq, Eq, Hash, Structural)]
pub enum OperationType {
    Exposure,
    WhiteBalance,
    Rotation,
    Contrast,
}

} // verus!
