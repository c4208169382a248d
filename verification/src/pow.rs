use vstd::prelude::*;

verus! {

/// Exponentiation by a signed integer.
///
/// A conforming type says through [`Pow::pow_req`] which exponentiations it
/// supports and through [`Pow::sp_pow`] what each one returns; the executable
/// [`Pow::pow`] must agree with that description exactly.
pub trait Pow: Sized {
    /// When `self.pow(exp)` may be called.
    spec fn pow_req(self, exp: int) -> bool;

    /// The value of `self` raised to `exp`.
    spec fn sp_pow(self, exp: int) -> Self;

    /// Raises the value to an integer power, positive or negative.
    fn pow(&self, exp: i32) -> (r: Self)
        requires
            self.pow_req(exp as int),
        ensures
            r == self.sp_pow(exp as int),
    ;
}

} // verus!
