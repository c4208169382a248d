use vstd::prelude::*;

verus! {

/// Failures reported by constructors and by point addition.
#[derive(Debug, Clone, Copy, PartialEq, Eq, Structural)]
pub enum Error {
    /// A field element was requested whose number is not below its prime.
    OutOfRange,
    /// The coordinates handed to the point constructor do not satisfy the
    /// curve equation.
    NotOnCurve,
    /// Two points on different curves (different `a` or `b`) were added.
    CurveMismatch,
}

} // verus!
