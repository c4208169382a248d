use vstd::prelude::*;

use vstd::arithmetic::div_mod::{lemma_add_mod_noop_right, lemma_mod_bound, lemma_mod_multiples_vanish, lemma_small_mod};
use vstd::arithmetic::mul::{lemma_mul_nonnegative, lemma_mul_unary_negation, lemma_mul_upper_bound};
use vstd::arithmetic::power::{lemma_pow0, lemma_pow1, lemma_pow_adds, pow};

use core::ops::Neg;

use crate::error::Error;
use crate::pow::Pow;
use crate::zero_check::ZeroCheck;

verus! {

/// An element of the finite field of integers modulo `prime`.
///
/// Invariant (established by [`FieldElement::new`] and preserved by every
/// operation): `number < prime`.  Two elements are equal exactly when both
/// their `number` and their `prime` agree.
#[derive(Debug, PartialEq, Eq, Copy, Clone, Structural)]
pub struct FieldElement {
    pub number: u32,
    pub prime: u32,
}

impl FieldElement {
    /// The range invariant together with the demand that the modulus can
    /// carry a multiplicative group: the element lies in `0 .. prime` and the
    /// modulus is at least 2 (as every prime is).
    pub open spec fn valid(self) -> bool {
        self.number < self.prime && 2 <= self.prime
    }

    /// The sum of two elements of the same field: addition modulo the prime.
    pub open spec fn sp_add(self, other: Self) -> Self {
        FieldElement {
            number: ((self.number + other.number) % (self.prime as int)) as u32,
            prime: self.prime,
        }
    }

    /// The difference of two elements of the same field, modulo the prime.
    pub open spec fn sp_sub(self, other: Self) -> Self {
        FieldElement {
            number: ((self.number - other.number) % (self.prime as int)) as u32,
            prime: self.prime,
        }
    }

    /// The product of two elements of the same field, modulo the prime.
    pub open spec fn sp_mul(self, other: Self) -> Self {
        FieldElement {
            number: ((self.number * other.number) % (self.prime as int)) as u32,
            prime: self.prime,
        }
    }

    /// The additive inverse: `-number` modulo the prime.
    pub open spec fn sp_neg(self) -> Self {
        FieldElement {
            number: ((-(self.number as int)) % (self.prime as int)) as u32,
            prime: self.prime,
        }
    }

    /// The quotient: multiplication by the divisor's multiplicative inverse,
    /// which is the divisor raised to `prime - 2`.
    pub open spec fn sp_div(self, other: Self) -> Self {
        self.sp_mul(other.sp_pow(other.prime - 2))
    }

    /// The sum of an element and a plain integer, modulo the prime.
    pub open spec fn sp_add_int(self, k: int) -> Self {
        FieldElement {
            number: ((self.number + k) % (self.prime as int)) as u32,
            prime: self.prime,
        }
    }

    /// The product of an element and a plain integer, modulo the prime.
    pub open spec fn sp_mul_int(self, k: int) -> Self {
        FieldElement {
            number: ((self.number * k) % (self.prime as int)) as u32,
            prime: self.prime,
        }
    }

    /// The exponent actually used by [`Pow::pow`]: a negative exponent is
    /// first reduced modulo `prime - 1`, the order of the multiplicative
    /// group of a prime field.
    pub open spec fn reduced_exp(self, exp: int) -> nat {
        if exp >= 0 {
            exp as nat
        } else {
            (exp % (self.prime - 1)) as nat
        }
    }

    /// Builds the element `number` of the field of integers modulo `prime`,
    /// rejecting a number outside the field's range.
    pub fn new(number: u32, prime: u32) -> (r: Result<Self, Error>)
        ensures
            r == if number < prime {
                Ok::<Self, Error>(FieldElement { number, prime })
            } else {
                Err::<Self, Error>(Error::OutOfRange)
            },
    {
        if number >= prime {
            return Err(Error::OutOfRange);
        }

        Ok(FieldElement { number, prime })
    }

    /// Repeated modular multiplication, `power` times.
    fn positive_pow(&self, power: u64) -> (r: Self)
        requires
            self.valid(),
        ensures
            r == (FieldElement {
                number: ((pow(self.number as int, power as nat) % (self.prime as int)) as u32),
                prime: self.prime,
            }),
    {
        let base = self.number as u64;
        let p = self.prime as u64;
        let mut number: u64 = 1;
        let mut i: u64 = 0;

        proof {
            lemma_pow0(base as int);
            lemma_small_mod(1, p as nat);
        }
        while i < power
            invariant
                self.valid(),
                base == self.number,
                p == self.prime,
                i <= power,
                number < p,
                number == pow(base as int, i as nat) % (p as int),
            decreases power - i,
        {
            proof {
                lemma_mul_upper_bound(number as int, p - 1, base as int, p - 1);
                lemma_mul_upper_bound(p - 1, u32::MAX as int, p - 1, u32::MAX as int);
                vstd::arithmetic::div_mod::lemma_mul_mod_noop_left(
                    pow(base as int, i as nat),
                    base as int,
                    p as int,
                );
                lemma_pow_adds(base as int, i as nat, 1);
                lemma_pow1(base as int);
            }
            number = (number * base) % p;
            i = i + 1;
        }

        FieldElement { number: number as u32, prime: self.prime }
    }

    /// A negative exponent is reduced modulo `prime - 1` (valid because the
    /// multiplicative group of a prime field has that order) and handed to
    /// the positive path.
    fn negative_pow(&self, power: i32) -> (r: Self)
        requires
            self.valid(),
            power < 0,
        ensures
            r == self.sp_pow(power as int),
    {
        let m: i64 = self.prime as i64 - 1;
        let equivalent_power = (power as i64).checked_rem_euclid(m).unwrap();
        proof {
            lemma_mod_bound(power as int, m as int);
        }
        self.positive_pow(equivalent_power as u64)
    }

    /// The multiplicative inverse: the element raised to `prime - 2`, which
    /// by Fermat's little theorem inverts any nonzero element of a prime
    /// field.
    pub fn inverse(&self) -> (r: Self)
        requires
            self.valid(),
        ensures
            r == self.sp_pow(self.prime - 2),
    {
        self.positive_pow((self.prime - 2) as u64)
    }
}

/// Every field operation on valid same-field operands yields a valid element
/// of that same field.
pub proof fn lemma_ops_valid(a: FieldElement, b: FieldElement)
    requires
        a.valid(),
        b.valid(),
        a.prime == b.prime,
    ensures
        a.sp_add(b).valid() && a.sp_add(b).prime == a.prime,
        a.sp_sub(b).valid() && a.sp_sub(b).prime == a.prime,
        a.sp_mul(b).valid() && a.sp_mul(b).prime == a.prime,
        a.sp_neg().valid() && a.sp_neg().prime == a.prime,
        a.sp_div(b).valid() && a.sp_div(b).prime == a.prime,
{
    let p = a.prime as int;
    lemma_mod_bound(a.number + b.number, p);
    lemma_mod_bound(a.number - b.number, p);
    lemma_mod_bound(a.number * b.number, p);
    lemma_mod_bound(-(a.number as int), p);
    lemma_pow_valid(b, b.prime - 2);
    lemma_mod_bound(a.number * b.sp_pow(b.prime - 2).number, p);
}

/// Raising a valid element to any exponent yields a valid element of the
/// same field.
pub proof fn lemma_pow_valid(a: FieldElement, e: int)
    requires
        a.valid(),
    ensures
        a.sp_pow(e).valid() && a.sp_pow(e).prime == a.prime,
{
    if e < 0 {
        lemma_mod_bound(e, a.prime - 1);
    }
    lemma_mod_bound(pow(a.number as int, a.reduced_exp(e)), a.prime as int);
}

/// Adding or multiplying a valid element and a plain integer yields a valid
/// element of the same field.
pub proof fn lemma_int_ops_valid(a: FieldElement, k: int)
    requires
        a.valid(),
    ensures
        a.sp_add_int(k).valid() && a.sp_add_int(k).prime == a.prime,
        a.sp_mul_int(k).valid() && a.sp_mul_int(k).prime == a.prime,
{
    lemma_mod_bound(a.number + k, a.prime as int);
    lemma_mod_bound(a.number * k, a.prime as int);
}

impl Pow for FieldElement {
    open spec fn pow_req(self, exp: int) -> bool {
        self.valid()
    }

    /// The element raised to `exp`: repeated multiplication modulo the
    /// prime, a negative exponent first reduced modulo `prime - 1`.
    open spec fn sp_pow(self, exp: int) -> Self {
        FieldElement {
            number: ((pow(self.number as int, self.reduced_exp(exp)) % (self.prime as int)) as u32),
            prime: self.prime,
        }
    }

    fn pow(&self, exp: i32) -> (r: Self) {
        if exp >= 0 {
            self.positive_pow(exp as u64)
        } else {
            self.negative_pow(exp)
        }
    }
}

impl ZeroCheck for FieldElement {
    open spec fn sp_is_zero(self) -> bool {
        self.number == 0
    }

    fn is_zero(&self) -> (r: bool) {
        self.number == 0
    }
}

impl core::ops::Add for FieldElement {
    type Output = Self;

    /// Addition modulo the shared prime.  Combining elements of different
    /// fields is a contract violation and aborts, as the callers must never
    /// attempt it.
    fn add(self, other: Self) -> (r: Self) {
        if self.prime != other.prime {
            return unreached();
        }

        let number = (((self.number as u64) + (other.number as u64)) % (self.prime as u64)) as u32;
        FieldElement { number, prime: self.prime }
    }
}

impl vstd::std_specs::ops::AddSpecImpl for FieldElement {
    open spec fn obeys_add_spec() -> bool {
        true
    }

    open spec fn add_req(self, other: Self) -> bool {
        self.valid() && other.valid() && self.prime == other.prime
    }

    open spec fn add_spec(self, other: Self) -> Self {
        self.sp_add(other)
    }
}

impl core::ops::Sub for FieldElement {
    type Output = Self;

    /// Subtraction modulo the shared prime: addition of the additive
    /// inverse.
    fn sub(self, other: Self) -> (r: Self) {
        proof {
            lemma_mod_bound(-(other.number as int), other.prime as int);
            lemma_add_mod_noop_right(
                self.number as int,
                -(other.number as int),
                self.prime as int,
            );
        }
        self + other.neg()
    }
}

impl vstd::std_specs::ops::SubSpecImpl for FieldElement {
    open spec fn obeys_sub_spec() -> bool {
        true
    }

    open spec fn sub_req(self, other: Self) -> bool {
        self.valid() && other.valid() && self.prime == other.prime
    }

    open spec fn sub_spec(self, other: Self) -> Self {
        self.sp_sub(other)
    }
}

impl core::ops::Mul for FieldElement {
    type Output = Self;

    /// Multiplication modulo the shared prime.  Combining elements of
    /// different fields is a contract violation and aborts.
    fn mul(self, other: Self) -> (r: Self) {
        if self.prime != other.prime {
            return unreached();
        }

        proof {
            lemma_mul_upper_bound(self.number as int, u32::MAX as int, other.number as int, u32::MAX as int);
        }
        let number = (((self.number as u64) * (other.number as u64)) % (self.prime as u64)) as u32;
        FieldElement { number, prime: self.prime }
    }
}

impl vstd::std_specs::ops::MulSpecImpl for FieldElement {
    open spec fn obeys_mul_spec() -> bool {
        true
    }

    open spec fn mul_req(self, other: Self) -> bool {
        self.valid() && other.valid() && self.prime == other.prime
    }

    open spec fn mul_spec(self, other: Self) -> Self {
        self.sp_mul(other)
    }
}

impl core::ops::Neg for FieldElement {
    type Output = Self;

    /// The additive inverse: `-number` modulo the prime.
    fn neg(self) -> (r: Self) {
        let number = if self.number == 0 {
            0
        } else {
            self.prime - self.number
        };
        proof {
            if self.number == 0 {
                lemma_small_mod(0, self.prime as nat);
            } else {
                lemma_mod_multiples_vanish(-1, self.prime - self.number, self.prime as int);
                lemma_small_mod((self.prime - self.number) as nat, self.prime as nat);
            }
        }
        FieldElement { number, prime: self.prime }
    }
}

impl vstd::std_specs::ops::NegSpecImpl for FieldElement {
    open spec fn obeys_neg_spec() -> bool {
        true
    }

    open spec fn neg_req(self) -> bool {
        self.valid()
    }

    open spec fn neg_spec(self) -> Self {
        self.sp_neg()
    }
}

impl core::ops::Div for FieldElement {
    type Output = Self;

    /// Division: multiplication by the divisor's multiplicative inverse.
    fn div(self, other: Self) -> (r: Self) {
        proof {
            lemma_pow_valid(other, other.prime - 2);
        }
        self * other.inverse()
    }
}

impl vstd::std_specs::ops::DivSpecImpl for FieldElement {
    open spec fn obeys_div_spec() -> bool {
        true
    }

    open spec fn div_req(self, other: Self) -> bool {
        self.valid() && other.valid() && self.prime == other.prime
    }

    open spec fn div_spec(self, other: Self) -> Self {
        self.sp_div(other)
    }
}

impl core::ops::Add<i32> for FieldElement {
    type Output = Self;

    /// The sum of an element and a plain integer, modulo the prime.
    fn add(self, other: i32) -> (r: Self) {
        let s: i64 = self.number as i64 + other as i64;
        let number = s.checked_rem_euclid(self.prime as i64).unwrap() as u32;
        FieldElement { number, prime: self.prime }
    }
}

impl vstd::std_specs::ops::AddSpecImpl<i32> for FieldElement {
    open spec fn obeys_add_spec() -> bool {
        true
    }

    open spec fn add_req(self, other: i32) -> bool {
        self.valid()
    }

    open spec fn add_spec(self, other: i32) -> Self {
        self.sp_add_int(other as int)
    }
}

impl core::ops::Mul<i32> for FieldElement {
    type Output = Self;

    /// The product of an element and a plain integer, modulo the prime.
    fn mul(self, other: i32) -> (r: Self) {
        proof {
            if other >= 0 {
                lemma_mul_nonnegative(self.number as int, other as int);
                lemma_mul_upper_bound(
                    self.number as int,
                    u32::MAX as int,
                    other as int,
                    i32::MAX as int,
                );
            } else {
                lemma_mul_unary_negation(self.number as int, other as int);
                lemma_mul_upper_bound(
                    self.number as int,
                    u32::MAX as int,
                    -(other as int),
                    -(i32::MIN as int),
                );
                lemma_mul_nonnegative(self.number as int, -(other as int));
            }
        }
        let s: i64 = self.number as i64 * other as i64;
        let number = s.checked_rem_euclid(self.prime as i64).unwrap() as u32;
        FieldElement { number, prime: self.prime }
    }
}

impl vstd::std_specs::ops::MulSpecImpl<i32> for FieldElement {
    open spec fn obeys_mul_spec() -> bool {
        true
    }

    open spec fn mul_req(self, other: i32) -> bool {
        self.valid()
    }

    open spec fn mul_spec(self, other: i32) -> Self {
        self.sp_mul_int(other as int)
    }
}

/// Fermat's little theorem on the field of 31 elements: every nonzero
/// element raised to the order 30 of the multiplicative group is the unit
/// element.
pub proof fn lemma_fermat_31(x: FieldElement)
    requires
        x.valid(),
        x.prime == 31,
        x.number != 0,
    ensures
        x.sp_pow(30) == (FieldElement { number: 1, prime: 31 }),
{
    reveal_with_fuel(pow, 32);
    let n = x.number as int;
    if n == 1 {
        assert(pow(1, 30) % 31 == 1);
    } else if n == 2 {
        assert(pow(2, 30) % 31 == 1);
    } else if n == 3 {
        assert(pow(3, 30) % 31 == 1);
    } else if n == 4 {
        assert(pow(4, 30) % 31 == 1);
    } else if n == 5 {
        assert(pow(5, 30) % 31 == 1);
    } else if n == 6 {
        assert(pow(6, 30) % 31 == 1);
    } else if n == 7 {
        assert(pow(7, 30) % 31 == 1);
    } else if n == 8 {
        assert(pow(8, 30) % 31 == 1);
    } else if n == 9 {
        assert(pow(9, 30) % 31 == 1);
    } else if n == 10 {
        assert(pow(10, 30) % 31 == 1);
    } else if n == 11 {
        assert(pow(11, 30) % 31 == 1);
    } else if n == 12 {
        assert(pow(12, 30) % 31 == 1);
    } else if n == 13 {
        assert(pow(13, 30) % 31 == 1);
    } else if n == 14 {
        assert(pow(14, 30) % 31 == 1);
    } else if n == 15 {
        assert(pow(15, 30) % 31 == 1);
    } else if n == 16 {
        assert(pow(16, 30) % 31 == 1);
    } else if n == 17 {
        assert(pow(17, 30) % 31 == 1);
    } else if n == 18 {
        assert(pow(18, 30) % 31 == 1);
    } else if n == 19 {
        assert(pow(19, 30) % 31 == 1);
    } else if n == 20 {
        assert(pow(20, 30) % 31 == 1);
    } else if n == 21 {
        assert(pow(21, 30) % 31 == 1);
    } else if n == 22 {
        assert(pow(22, 30) % 31 == 1);
    } else if n == 23 {
        assert(pow(23, 30) % 31 == 1);
    } else if n == 24 {
        assert(pow(24, 30) % 31 == 1);
    } else if n == 25 {
        assert(pow(25, 30) % 31 == 1);
    } else if n == 26 {
        assert(pow(26, 30) % 31 == 1);
    } else if n == 27 {
        assert(pow(27, 30) % 31 == 1);
    } else if n == 28 {
        assert(pow(28, 30) % 31 == 1);
    } else if n == 29 {
        assert(pow(29, 30) % 31 == 1);
    } else if n == 30 {
        assert(pow(30, 30) % 31 == 1);
    }
}

} // verus!
