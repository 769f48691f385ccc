//! Edit operations, the append-only operation log, and its resolution.
//!
//! Callers append [`EditOperation`] values in issue order; the log never
//! shrinks.  Before a render the log is collapsed to at most one operation
//! per kind — the most recently issued one — in a fixed-size
//! [`ResolvedOperationSet`].

use crate::operation_type::OperationType;
use vstd::prelude::*;

verus! {

/// One recorded edit intent: a kind together with its parameters.
/// Fractional parameters are carried in thousandths (see [`crate::transform`]).
#[derive(Clone, Copy, Debug, PartialEq, Eq, Structural)]
pub enum EditOperation {
    /// Exposure change; the multiplier is in thousandths of the caller range.
    Exposure { multiplier: i32 },
    /// Contrast change; the level is in thousandths of the caller range.
    Contrast { level: i32 },
    /// Rotation by a discrete angle in whole degrees clockwise.
    Rotation { angle: u16 },
    /// Reserved: white balance is a placeholder slot in the fixed order.
    WhiteBalance,
}

/// The kind under which an operation is deduplicated.
pub open spec fn kind_of(op: EditOperation) -> OperationType {
    match op {
        EditOperation::Exposure { .. } => OperationType::Exposure,
        EditOperation::Contrast { .. } => OperationType::Contrast,
        EditOperation::Rotation { .. } => OperationType::Rotation,
        EditOperation::WhiteBalance => OperationType::WhiteBalance,
    }
}

/// The most recently issued operation of kind `k` in the log, if any.
pub open spec fn last_of_kind(log: Seq<EditOperation>, k: OperationType) -> Option<EditOperation>
    decreases log.len(),
{
    if log.len() == 0 {
        None
    } else if kind_of(log.last()) == k {
        Some(log.last())
    } else {
        last_of_kind(log.drop_last(), k)
    }
}

/// Appending an operation supersedes the previous operation of its kind and
/// leaves every other kind's resolution unchanged.
pub proof fn lemma_last_of_kind_push(log: Seq<EditOperation>, op: EditOperation, k: OperationType)
    ensures
        last_of_kind(log.push(op), k) == if kind_of(op) == k {
            Some(op)
        } else {
            last_of_kind(log, k)
        },
{
    assert(log.push(op).last() == op);
    assert(log.push(op).drop_last() =~= log);
}

/// The log collapsed by kind: at most one slot per kind, holding the most
/// recently issued operation of that kind.
pub struct ResolvedOperationSet {
    pub exposure: Option<EditOperation>,
    pub contrast: Option<EditOperation>,
    pub rotation: Option<EditOperation>,
    pub white_balance: Option<EditOperation>,
}

impl ResolvedOperationSet {
    /// Each slot holds exactly the last log entry of its kind.
    pub open spec fn resolves(self, log: Seq<EditOperation>) -> bool {
        &&& self.exposure == last_of_kind(log, OperationType::Exposure)
        &&& self.contrast == last_of_kind(log, OperationType::Contrast)
        &&& self.rotation == last_of_kind(log, OperationType::Rotation)
        &&& self.white_balance == last_of_kind(log, OperationType::WhiteBalance)
    }
}

/// Collapses the log: scans it in issue order and keeps, for each kind,
/// only the operation with the greatest issue index.
pub fn resolve(log: &Vec<EditOperation>) -> (r: ResolvedOperationSet)
    ensures
        r.resolves(log@),
{
    let mut r = ResolvedOperationSet {
        exposure: None,
        contrast: None,
        rotation: None,
        white_balance: None,
    };
    let n: usize = log.len();
    let mut i: usize = 0;
    while i < n
        invariant
            n == log@.len(),
            i <= n,
            r.resolves(log@.subrange(0, i as int)),
        decreases n - i,
    {
        let op = log[i];
        proof {
            assert(log@.subrange(0, i as int).push(log@[i as int]) =~= log@.subrange(
                0,
                i as int + 1,
            ));
            lemma_last_of_kind_push(log@.subrange(0, i as int), op, OperationType::Exposure);
            lemma_last_of_kind_push(log@.subrange(0, i as int), op, OperationType::Contrast);
            lemma_last_of_kind_push(log@.subrange(0, i as int), op, OperationType::Rotation);
            lemma_last_of_kind_push(log@.subrange(0, i as int), op, OperationType::WhiteBalance);
        }
        match op {
            EditOperation::Exposure { .. } => {
                r.exposure = Some(op);
            },
            EditOperation::Contrast { .. } => {
                r.contrast = Some(op);
            },
            EditOperation::Rotation { .. } => {
                r.rotation = Some(op);
            },
            EditOperation::WhiteBalance => {
                r.white_balance = Some(op);
            },
        }
        i = i + 1;
    }
    proof {
        assert(log@.subrange(0, n as int) =~= log@);
    }
    r
}

} // verus!
