use vstd::prelude::*;

use crate::field_element::FieldElement;
use crate::pow::Pow;
use crate::zero_check::ZeroCheck;

verus! {

/// The numeric capability the curve logic needs from a coordinate type: ring
/// operations, exponentiation, a zero test, and an equality test.
///
/// Values carry a ghost field identifier ([`GraphPoint::field_id`]); only
/// values of one field may be combined, and every operation stays inside
/// that field ([`GraphPoint::lemma_ops_closed`]).
pub trait GraphPoint: Pow + ZeroCheck + Sized + Copy {
    /// Whether the value is a well-formed member of its domain.
    spec fn wf(self) -> bool;

    /// Identifies the field the value belongs to.
    spec fn field_id(self) -> int;

    /// What `add` returns.
    spec fn sp_add(self, other: Self) -> Self;

    /// What `sub` returns.
    spec fn sp_sub(self, other: Self) -> Self;

    /// What `mul` returns.
    spec fn sp_mul(self, other: Self) -> Self;

    /// What `div` returns.
    spec fn sp_div(self, other: Self) -> Self;

    /// What `add_int` returns.
    spec fn sp_add_int(self, k: int) -> Self;

    /// What `mul_int` returns.
    spec fn sp_mul_int(self, k: int) -> Self;

    /// Law: the ring operations on well-formed values of one field yield
    /// well-formed values of that same field.
    proof fn lemma_ops_closed(x: Self, y: Self)
        requires
            x.wf(),
            y.wf(),
            x.field_id() == y.field_id(),
        ensures
            x.sp_add(y).wf() && x.sp_add(y).field_id() == x.field_id(),
            x.sp_sub(y).wf() && x.sp_sub(y).field_id() == x.field_id(),
            x.sp_mul(y).wf() && x.sp_mul(y).field_id() == x.field_id(),
            x.sp_div(y).wf() && x.sp_div(y).field_id() == x.field_id(),
    ;

    /// Law: combining a well-formed value with a plain integer stays in the
    /// value's field.
    proof fn lemma_int_ops_closed(x: Self, k: int)
        requires
            x.wf(),
        ensures
            x.sp_add_int(k).wf() && x.sp_add_int(k).field_id() == x.field_id(),
            x.sp_mul_int(k).wf() && x.sp_mul_int(k).field_id() == x.field_id(),
    ;

    /// Law: every well-formed value supports every exponent, and the power
    /// stays in the value's field.
    proof fn lemma_pow_closed(x: Self, e: int)
        requires
            x.wf(),
        ensures
            x.pow_req(e),
            x.sp_pow(e).wf() && x.sp_pow(e).field_id() == x.field_id(),
    ;

    /// Addition within one field.
    fn add(self, other: Self) -> (r: Self)
        requires
            self.wf(),
            other.wf(),
            self.field_id() == other.field_id(),
        ensures
            r == self.sp_add(other),
    ;

    /// Subtraction within one field.
    fn sub(self, other: Self) -> (r: Self)
        requires
            self.wf(),
            other.wf(),
            self.field_id() == other.field_id(),
        ensures
            r == self.sp_sub(other),
    ;

    /// Multiplication within one field.
    fn mul(self, other: Self) -> (r: Self)
        requires
            self.wf(),
            other.wf(),
            self.field_id() == other.field_id(),
        ensures
            r == self.sp_mul(other),
    ;

    /// Division within one field.
    fn div(self, other: Self) -> (r: Self)
        requires
            self.wf(),
            other.wf(),
            self.field_id() == other.field_id(),
        ensures
            r == self.sp_div(other),
    ;

    /// The sum of a value and a plain integer.
    fn add_int(self, k: i32) -> (r: Self)
        requires
            self.wf(),
        ensures
            r == self.sp_add_int(k as int),
    ;

    /// The product of a value and a plain integer.
    fn mul_int(self, k: i32) -> (r: Self)
        requires
            self.wf(),
        ensures
            r == self.sp_mul_int(k as int),
    ;

    /// Equality of values, agreeing with mathematical equality.
    fn eq_val(&self, other: &Self) -> (r: bool)
        ensures
            r == (self == other),
    ;
}

impl GraphPoint for FieldElement {
    open spec fn wf(self) -> bool {
        self.valid()
    }

    open spec fn field_id(self) -> int {
        self.prime as int
    }

    open spec fn sp_add(self, other: Self) -> Self {
        FieldElement::sp_add(self, other)
    }

    open spec fn sp_sub(self, other: Self) -> Self {
        FieldElement::sp_sub(self, other)
    }

    open spec fn sp_mul(self, other: Self) -> Self {
        FieldElement::sp_mul(self, other)
    }

    open spec fn sp_div(self, other: Self) -> Self {
        FieldElement::sp_div(self, other)
    }

    open spec fn sp_add_int(self, k: int) -> Self {
        FieldElement::sp_add_int(self, k)
    }

    open spec fn sp_mul_int(self, k: int) -> Self {
        FieldElement::sp_mul_int(self, k)
    }

    proof fn lemma_ops_closed(x: Self, y: Self) {
        crate::field_element::lemma_ops_valid(x, y);
    }

    proof fn lemma_int_ops_closed(x: Self, k: int) {
        crate::field_element::lemma_int_ops_valid(x, k);
    }

    proof fn lemma_pow_closed(x: Self, e: int) {
        crate::field_element::lemma_pow_valid(x, e);
    }

    fn add(self, other: Self) -> (r: Self) {
        self + other
    }

    fn sub(self, other: Self) -> (r: Self) {
        self - other
    }

    fn mul(self, other: Self) -> (r: Self) {
        self * other
    }

    fn div(self, other: Self) -> (r: Self) {
        self / other
    }

    fn add_int(self, k: i32) -> (r: Self) {
        self + k
    }

    fn mul_int(self, k: i32) -> (r: Self) {
        self * k
    }

    fn eq_val(&self, other: &Self) -> (r: bool) {
        self.number == other.number && self.prime == other.prime
    }
}

/// A coordinate of a curve point: either a finite value of the underlying
/// field or the point-at-infinity sentinel.  Infinity is the group identity
/// marker, not a numeric zero.
#[derive(Debug, Clone, Copy, PartialEq, Eq)]
pub enum Coordinate<G: GraphPoint> {
    Value(G),
    Infinity,
}

impl<T: GraphPoint> Coordinate<T> {
    /// Whether the coordinate is well formed: a finite value must be a
    /// well-formed member of its field.
    pub open spec fn c_wf(self) -> bool {
        match self {
            Coordinate::Value(v) => v.wf(),
            Coordinate::Infinity => true,
        }
    }

    /// Whether the coordinate belongs to field `k`; infinity belongs to every
    /// field.
    pub open spec fn in_field(self, k: int) -> bool {
        match self {
            Coordinate::Value(v) => v.field_id() == k,
            Coordinate::Infinity => true,
        }
    }

    /// Whether two coordinates may be combined: finite values must share a
    /// field.
    pub open spec fn c_compat(self, other: Self) -> bool {
        match (self, other) {
            (Coordinate::Value(a), Coordinate::Value(b)) => a.field_id() == b.field_id(),
            _ => true,
        }
    }

    /// What `add` returns: addition of finite values, with infinity as the
    /// identity.
    pub open spec fn sp_add(self, other: Self) -> Self {
        match (self, other) {
            (Coordinate::Value(x), Coordinate::Value(y)) => Coordinate::Value(x.sp_add(y)),
            (Coordinate::Value(_), Coordinate::Infinity) => self,
            (Coordinate::Infinity, Coordinate::Value(_)) => other,
            _ => Coordinate::Infinity,
        }
    }

    /// What `sub` returns: defined only on two finite values; any infinity
    /// operand propagates infinity.
    pub open spec fn sp_sub(self, other: Self) -> Self {
        match (self, other) {
            (Coordinate::Value(x), Coordinate::Value(y)) => Coordinate::Value(x.sp_sub(y)),
            _ => Coordinate::Infinity,
        }
    }

    /// What `mul` returns: defined only on two finite values; any infinity
    /// operand propagates infinity.
    pub open spec fn sp_mul(self, other: Self) -> Self {
        match (self, other) {
            (Coordinate::Value(x), Coordinate::Value(y)) => Coordinate::Value(x.sp_mul(y)),
            _ => Coordinate::Infinity,
        }
    }

    /// What `div` returns: defined only on two finite values; any infinity
    /// operand propagates infinity.
    pub open spec fn sp_div(self, other: Self) -> Self {
        match (self, other) {
            (Coordinate::Value(x), Coordinate::Value(y)) => Coordinate::Value(x.sp_div(y)),
            _ => Coordinate::Infinity,
        }
    }

    /// What adding a plain integer returns: defined only on a finite value.
    pub open spec fn sp_add_int(self, k: int) -> Self {
        match self {
            Coordinate::Value(x) => Coordinate::Value(x.sp_add_int(k)),
            Coordinate::Infinity => Coordinate::Infinity,
        }
    }

    /// What multiplying by a plain integer returns: defined only on a finite
    /// value.
    pub open spec fn sp_mul_int(self, k: int) -> Self {
        match self {
            Coordinate::Value(x) => Coordinate::Value(x.sp_mul_int(k)),
            Coordinate::Infinity => Coordinate::Infinity,
        }
    }

    /// Whether the coordinate is the point-at-infinity sentinel.
    pub open spec fn sp_is_infinity(self) -> bool {
        self is Infinity
    }

    /// Whether the coordinate is a finite zero; infinity is never zero.
    pub open spec fn sp_is_zero(self) -> bool {
        match self {
            Coordinate::Value(v) => v.sp_is_zero(),
            Coordinate::Infinity => false,
        }
    }

    /// Applies `f` to a finite value; infinity passes through untouched.
    pub fn map<F: FnOnce(T) -> T>(self, f: F) -> (r: Self)
        requires
            self matches Coordinate::Value(v) ==> f.requires((v,)),
        ensures
            self is Infinity ==> r is Infinity,
            self matches Coordinate::Value(v) ==> r matches Coordinate::Value(w) && f.ensures(
                (v,),
                w,
            ),
    {
        match self {
            Coordinate::Value(x) => Coordinate::Value(f(x)),
            Coordinate::Infinity => Coordinate::Infinity,
        }
    }

    /// Reports whether the coordinate is the point-at-infinity sentinel.
    pub fn is_infinity(&self) -> (r: bool)
        ensures
            r == self.sp_is_infinity(),
    {
        match self {
            Coordinate::Value(_) => false,
            Coordinate::Infinity => true,
        }
    }

    /// Reports whether the coordinate is a finite zero.
    pub fn is_zero(&self) -> (r: bool)
        ensures
            r == self.sp_is_zero(),
    {
        match self {
            Coordinate::Value(v) => v.is_zero(),
            Coordinate::Infinity => false,
        }
    }

    /// Equality of coordinates, agreeing with mathematical equality.
    pub fn eq_val(&self, other: &Self) -> (r: bool)
        ensures
            r == (self == other),
    {
        match (self, other) {
            (Coordinate::Value(a), Coordinate::Value(b)) => a.eq_val(b),
            (Coordinate::Infinity, Coordinate::Infinity) => true,
            _ => false,
        }
    }
}

/// The coordinate operations on well-formed coordinates of one field yield
/// well-formed coordinates of that same field.
pub proof fn lemma_c_ops_closed<T: GraphPoint>(x: Coordinate<T>, y: Coordinate<T>, k: int)
    requires
        x.c_wf(),
        y.c_wf(),
        x.in_field(k),
        y.in_field(k),
    ensures
        x.sp_add(y).c_wf() && x.sp_add(y).in_field(k),
        x.sp_sub(y).c_wf() && x.sp_sub(y).in_field(k),
        x.sp_mul(y).c_wf() && x.sp_mul(y).in_field(k),
        x.sp_div(y).c_wf() && x.sp_div(y).in_field(k),
{
    if let (Coordinate::Value(a), Coordinate::Value(b)) = (x, y) {
        T::lemma_ops_closed(a, b);
    }
}

/// Combining a well-formed coordinate with a plain integer stays in the
/// coordinate's field.
pub proof fn lemma_c_int_ops_closed<T: GraphPoint>(x: Coordinate<T>, n: int, k: int)
    requires
        x.c_wf(),
        x.in_field(k),
    ensures
        x.sp_add_int(n).c_wf() && x.sp_add_int(n).in_field(k),
        x.sp_mul_int(n).c_wf() && x.sp_mul_int(n).in_field(k),
{
    if let Coordinate::Value(a) = x {
        T::lemma_int_ops_closed(a, n);
    }
}

/// Every well-formed coordinate supports every exponent, and the power stays
/// in the coordinate's field.
pub proof fn lemma_c_pow_closed<T: GraphPoint>(x: Coordinate<T>, e: int, k: int)
    requires
        x.c_wf(),
        x.in_field(k),
    ensures
        x.pow_req(e),
        x.sp_pow(e).c_wf() && x.sp_pow(e).in_field(k),
{
    if let Coordinate::Value(a) = x {
        T::lemma_pow_closed(a, e);
    }
}

impl<T: GraphPoint> Pow for Coordinate<T> {
    open spec fn pow_req(self, exp: int) -> bool {
        match self {
            Coordinate::Value(v) => v.pow_req(exp),
            Coordinate::Infinity => true,
        }
    }

    /// Infinity stays infinity; a finite value is raised in its field.
    open spec fn sp_pow(self, exp: int) -> Self {
        match self {
            Coordinate::Value(v) => Coordinate::Value(v.sp_pow(exp)),
            Coordinate::Infinity => Coordinate::Infinity,
        }
    }

    fn pow(&self, exp: i32) -> (r: Self) {
        match self {
            Coordinate::Value(v) => Coordinate::Value(v.pow(exp)),
            Coordinate::Infinity => Coordinate::Infinity,
        }
    }
}

impl<T: GraphPoint> core::ops::Add for Coordinate<T> {
    type Output = Self;

    /// Addition lifted over the infinity sentinel, which acts as the
    /// identity.
    fn add(self, other: Self) -> (r: Self) {
        match (self, other) {
            (Coordinate::Value(x), Coordinate::Value(y)) => Coordinate::Value(x.add(y)),
            (Coordinate::Value(_), Coordinate::Infinity) => self,
            (Coordinate::Infinity, Coordinate::Value(_)) => other,
            _ => Coordinate::Infinity,
        }
    }
}

impl<T: GraphPoint> vstd::std_specs::ops::AddSpecImpl for Coordinate<T> {
    open spec fn obeys_add_spec() -> bool {
        true
    }

    open spec fn add_req(self, other: Self) -> bool {
        self.c_wf() && other.c_wf() && self.c_compat(other)
    }

    open spec fn add_spec(self, other: Self) -> Self {
        self.sp_add(other)
    }
}

impl<T: GraphPoint> core::ops::Sub for Coordinate<T> {
    type Output = Self;

    /// Subtraction of two finite coordinates; an infinity operand signals an
    /// undefined slope and propagates.
    fn sub(self, other: Self) -> (r: Self) {
        match (self, other) {
            (Coordinate::Value(x), Coordinate::Value(y)) => Coordinate::Value(x.sub(y)),
            _ => Coordinate::Infinity,
        }
    }
}

impl<T: GraphPoint> vstd::std_specs::ops::SubSpecImpl for Coordinate<T> {
    open spec fn obeys_sub_spec() -> bool {
        true
    }

    open spec fn sub_req(self, other: Self) -> bool {
        self.c_wf() && other.c_wf() && self.c_compat(other)
    }

    open spec fn sub_spec(self, other: Self) -> Self {
        self.sp_sub(other)
    }
}

impl<T: GraphPoint> core::ops::Mul for Coordinate<T> {
    type Output = Self;

    /// Multiplication of two finite coordinates; an infinity operand
    /// propagates.
    fn mul(self, other: Self) -> (r: Self) {
        match (self, other) {
            (Coordinate::Value(x), Coordinate::Value(y)) => Coordinate::Value(x.mul(y)),
            _ => Coordinate::Infinity,
        }
    }
}

impl<T: GraphPoint> vstd::std_specs::ops::MulSpecImpl for Coordinate<T> {
    open spec fn obeys_mul_spec() -> bool {
        true
    }

    open spec fn mul_req(self, other: Self) -> bool {
        self.c_wf() && other.c_wf() && self.c_compat(other)
    }

    open spec fn mul_spec(self, other: Self) -> Self {
        self.sp_mul(other)
    }
}

impl<T: GraphPoint> core::ops::Div for Coordinate<T> {
    type Output = Self;

    /// Division of two finite coordinates; an infinity operand propagates.
    fn div(self, other: Self) -> (r: Self) {
        match (self, other) {
            (Coordinate::Value(x), Coordinate::Value(y)) => Coordinate::Value(x.div(y)),
            _ => Coordinate::Infinity,
        }
    }
}

impl<T: GraphPoint> vstd::std_specs::ops::DivSpecImpl for Coordinate<T> {
    open spec fn obeys_div_spec() -> bool {
        true
    }

    open spec fn div_req(self, other: Self) -> bool {
        self.c_wf() && other.c_wf() && self.c_compat(other)
    }

    open spec fn div_spec(self, other: Self) -> Self {
        self.sp_div(other)
    }
}

impl<T: GraphPoint> core::ops::Add<i32> for Coordinate<T> {
    type Output = Self;

    /// The sum of a finite coordinate and a plain integer.
    fn add(self, other: i32) -> (r: Self) {
        match self {
            Coordinate::Value(x) => Coordinate::Value(x.add_int(other)),
            Coordinate::Infinity => Coordinate::Infinity,
        }
    }
}

impl<T: GraphPoint> vstd::std_specs::ops::AddSpecImpl<i32> for Coordinate<T> {
    open spec fn obeys_add_spec() -> bool {
        true
    }

    open spec fn add_req(self, other: i32) -> bool {
        self.c_wf()
    }

    open spec fn add_spec(self, other: i32) -> Self {
        self.sp_add_int(other as int)
    }
}

impl<T: GraphPoint> core::ops::Mul<i32> for Coordinate<T> {
    type Output = Self;

    /// The product of a finite coordinate and a plain integer.
    fn mul(self, other: i32) -> (r: Self) {
        match self {
            Coordinate::Value(x) => Coordinate::Value(x.mul_int(other)),
            Coordinate::Infinity => Coordinate::Infinity,
        }
    }
}

impl<T: GraphPoint> vstd::std_specs::ops::MulSpecImpl<i32> for Coordinate<T> {
    open spec fn obeys_mul_spec() -> bool {
        true
    }

    open spec fn mul_req(self, other: i32) -> bool {
        self.c_wf()
    }

    open spec fn mul_spec(self, other: i32) -> Self {
        self.sp_mul_int(other as int)
    }
}

impl From<FieldElement> for Coordinate<FieldElement> {
    /// Wraps a field element as a finite coordinate.
    fn from(value: FieldElement) -> (r: Self) {
        Coordinate::Value(value)
    }
}

impl vstd::std_specs::convert::FromSpecImpl<FieldElement> for Coordinate<FieldElement> {
    open spec fn obeys_from_spec() -> bool {
        true
    }

    open spec fn from_spec(value: FieldElement) -> Self {
        Coordinate::Value(value)
    }
}

} // verus!
