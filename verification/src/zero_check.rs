use vstd::prelude::*;

verus! {

/// Test for the additive identity of a numeric domain.
pub trait ZeroCheck: Sized {
    /// Whether the value is the additive identity.
    spec fn sp_is_zero(self) -> bool;

    /// Reports whether the value is the additive identity of its domain.
    fn is_zero(&self) -> (r: bool)
        ensures
            r == self.sp_is_zero(),
    ;
}

} // verus!
