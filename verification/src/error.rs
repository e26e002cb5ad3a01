//! The failures that the curve operations report.

use vstd::prelude::*;

verus! {

/// Why a curve operation was refused.
#[derive(Clone, Copy, Debug, PartialEq, Eq, Structural)]
pub enum CurveError {
    /// The curve has fewer than two control points: it has no order and
    /// cannot be evaluated or sampled.
    UndefinedOrder,
    /// The sampling step is zero or negative.
    InvalidStep,
    /// No control point has this index.
    IndexOutOfRange { index: usize, count: usize },
}

} // verus!
