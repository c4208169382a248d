use vstd::prelude::*;

use crate::coordinate::{lemma_c_int_ops_closed, lemma_c_ops_closed, lemma_c_pow_closed, Coordinate, GraphPoint};
use crate::error::Error;
use crate::field_element::FieldElement;
use crate::pow::Pow;

verus! {

/// A point of the Weierstrass curve `y^2 = x^3 + a*x + b`, or the point at
/// infinity (both `x` and `y` infinite).  `a` and `b` identify the curve the
/// point belongs to; only points of one curve may be added.
///
/// Membership in the curve is checked by [`Point::new`]; the coordinates are
/// never mutated afterwards.
#[derive(Debug, PartialEq, Eq, Clone, Copy)]
pub struct Point<G: GraphPoint> {
    pub x: Coordinate<G>,
    pub y: Coordinate<G>,
    pub a: Coordinate<G>,
    pub b: Coordinate<G>,
}

impl<G: GraphPoint> Point<G> {
    /// Every coordinate of the point is well formed.
    pub open spec fn fields_wf(self) -> bool {
        self.x.c_wf() && self.y.c_wf() && self.a.c_wf() && self.b.c_wf()
    }

    /// Every finite coordinate of the point belongs to field `k`.
    pub open spec fn in_field(self, k: int) -> bool {
        self.x.in_field(k) && self.y.in_field(k) && self.a.in_field(k) && self.b.in_field(k)
    }

    /// The point's coordinates are well formed and drawn from one field.
    pub open spec fn wf(self) -> bool {
        self.fields_wf() && exists|k: int| self.in_field(k)
    }

    /// The curve coefficient `a`.
    pub open spec fn spec_a(self) -> Coordinate<G> {
        self.a
    }

    /// The curve coefficient `b`.
    pub open spec fn spec_b(self) -> Coordinate<G> {
        self.b
    }

    /// The curve equation `y^2 = x^3 + x*a + b` under coordinate arithmetic.
    pub open spec fn curve_eq(
        x: Coordinate<G>,
        y: Coordinate<G>,
        a: Coordinate<G>,
        b: Coordinate<G>,
    ) -> bool {
        y.sp_pow(2) == x.sp_pow(3).sp_add(x.sp_mul(a)).sp_add(b)
    }

    /// What the constructor accepts: the identity point (both `x` and `y`
    /// infinite) or a coordinate pair satisfying the curve equation.
    pub open spec fn admissible(
        x: Coordinate<G>,
        y: Coordinate<G>,
        a: Coordinate<G>,
        b: Coordinate<G>,
    ) -> bool {
        (x is Infinity && y is Infinity) || Self::curve_eq(x, y, a, b)
    }

    /// Whether two points lie on the same curve.
    pub open spec fn curves_match(self, other: Self) -> bool {
        self.a == other.a && self.b == other.b
    }

    /// Whether the two points' finite coordinates are drawn from one field.
    pub open spec fn joint_field(self, other: Self) -> bool {
        exists|k: int| self.in_field(k) && other.in_field(k)
    }

    /// Validates that the coordinates satisfy the curve equation — or are
    /// the identity point — and builds the point.
    pub fn new(
        x: Coordinate<G>,
        y: Coordinate<G>,
        a: Coordinate<G>,
        b: Coordinate<G>,
    ) -> (r: Result<Self, Error>)
        requires
            x.c_wf() && y.c_wf() && a.c_wf() && b.c_wf(),
            exists|k: int|
                #[trigger] x.in_field(k) && y.in_field(k) && a.in_field(k) && b.in_field(k),
        ensures
            r == if Self::admissible(x, y, a, b) {
                Ok::<Self, Error>(Point { x, y, a, b })
            } else {
                Err::<Self, Error>(Error::NotOnCurve)
            },
    {
        if !(x.is_infinity() && y.is_infinity()) {
            proof {
                let k = choose|k: int|
                    #[trigger] x.in_field(k) && y.in_field(k) && a.in_field(k) && b.in_field(k);
                lemma_c_pow_closed(y, 2, k);
                lemma_c_pow_closed(x, 3, k);
                lemma_c_ops_closed(x, a, k);
                lemma_c_ops_closed(x.sp_pow(3), x.sp_mul(a), k);
                lemma_c_ops_closed(x.sp_pow(3).sp_add(x.sp_mul(a)), b, k);
            }
            let lhs = y.pow(2);
            let rhs = x.pow(3) + x * a + b;
            if !lhs.eq_val(&rhs) {
                return Err(Error::NotOnCurve);
            }
        }

        Ok(Point { x, y, a, b })
    }
}

impl<G: GraphPoint> Point<G> {
    /// The chord-tangent result for slope `slope` through `(x1, y1)` and a
    /// second point with abscissa `x2`, on the curve `(a, b)`:
    /// `x = slope^2 - x1 - x2` and `y = slope*(x1 - x) - y1`.
    pub open spec fn sp_chord_result(
        slope: Coordinate<G>,
        x1: Coordinate<G>,
        y1: Coordinate<G>,
        x2: Coordinate<G>,
        a: Coordinate<G>,
        b: Coordinate<G>,
    ) -> Self {
        let x_res = slope.sp_pow(2).sp_sub(x1).sp_sub(x2);
        let y_res = slope.sp_mul(x1.sp_sub(x_res)).sp_sub(y1);
        Point { x: x_res, y: y_res, a, b }
    }

    /// The slope of the tangent at the point: `(3*x^2 + a) / (2*y)`.
    pub open spec fn sp_tangent_slope(self) -> Coordinate<G> {
        self.x.sp_pow(2).sp_mul_int(3).sp_add(self.a).sp_div(self.y.sp_mul_int(2))
    }

    /// The slope of the secant through two points: `(y2 - y1) / (x2 - x1)`.
    pub open spec fn sp_secant_slope(self, other: Self) -> Coordinate<G> {
        other.y.sp_sub(self.y).sp_div(other.x.sp_sub(self.x))
    }

    /// The identity point of the curve `(a, b)`.
    pub open spec fn sp_identity(a: Coordinate<G>, b: Coordinate<G>) -> Self {
        Point { x: Coordinate::Infinity, y: Coordinate::Infinity, a, b }
    }

    /// The group law for two points of one curve, by the ordered case
    /// analysis: either identity; a vertical pair; doubling a point whose
    /// tangent is vertical (`y = 0`); tangent doubling; or the secant case.
    pub open spec fn sp_point_add(self, other: Self) -> Self {
        if self.x is Infinity {
            other
        } else if other.x is Infinity {
            self
        } else if self.x == other.x && self.y != other.y {
            Self::sp_identity(self.a, self.b)
        } else if self == other {
            if self.y.sp_is_zero() {
                Self::sp_identity(self.a, self.b)
            } else {
                Self::sp_chord_result(
                    self.sp_tangent_slope(),
                    self.x,
                    self.y,
                    other.x,
                    self.a,
                    self.b,
                )
            }
        } else {
            Self::sp_chord_result(
                self.sp_secant_slope(other),
                self.x,
                self.y,
                other.x,
                self.a,
                self.b,
            )
        }
    }

    /// Equality of points, agreeing with mathematical equality.
    pub fn eq_val(&self, other: &Self) -> (r: bool)
        ensures
            r == (self == other),
    {
        self.x.eq_val(&other.x) && self.y.eq_val(&other.y) && self.a.eq_val(&other.a)
            && self.b.eq_val(&other.b)
    }

    /// The chord-tangent addition for two points of one curve, neither the
    /// identity.
    fn add_point(self, other: Self) -> (r: Self)
        requires
            self.fields_wf(),
            other.fields_wf(),
            self.joint_field(other),
            self.curves_match(other),
            !self.x.sp_is_infinity(),
            !other.x.sp_is_infinity(),
        ensures
            r == self.sp_point_add(other),
    {
        let ghost k = choose|k: int| self.in_field(k) && other.in_field(k);

        if self.x.eq_val(&other.x) && !self.y.eq_val(&other.y) {
            return Point {
                x: Coordinate::Infinity,
                y: Coordinate::Infinity,
                a: self.a,
                b: self.b,
            };
        }

        let slope = if self.eq_val(&other) {
            if self.y.is_zero() {
                return Point {
                    x: Coordinate::Infinity,
                    y: Coordinate::Infinity,
                    a: self.a,
                    b: self.b,
                };
            }

            proof {
                lemma_c_pow_closed(self.x, 2, k);
                lemma_c_int_ops_closed(self.x.sp_pow(2), 3, k);
                lemma_c_ops_closed(self.x.sp_pow(2).sp_mul_int(3), self.a, k);
                lemma_c_int_ops_closed(self.y, 2, k);
                lemma_c_ops_closed(
                    self.x.sp_pow(2).sp_mul_int(3).sp_add(self.a),
                    self.y.sp_mul_int(2),
                    k,
                );
            }
            (self.x.pow(2) * 3 + self.a) / (self.y * 2)
        } else {
            proof {
                lemma_c_ops_closed(other.y, self.y, k);
                lemma_c_ops_closed(other.x, self.x, k);
                lemma_c_ops_closed(other.y.sp_sub(self.y), other.x.sp_sub(self.x), k);
            }
            (other.y - self.y) / (other.x - self.x)
        };

        proof {
            lemma_slope_in_field(self, other, k);
            lemma_c_pow_closed(slope, 2, k);
            lemma_c_ops_closed(slope.sp_pow(2), self.x, k);
            lemma_c_ops_closed(slope.sp_pow(2).sp_sub(self.x), other.x, k);
            let x_res = slope.sp_pow(2).sp_sub(self.x).sp_sub(other.x);
            lemma_c_ops_closed(self.x, x_res, k);
            lemma_c_ops_closed(slope, self.x.sp_sub(x_res), k);
        }

        let x_res = slope.pow(2) - self.x - other.x;
        let y_res = slope * (self.x - x_res) - self.y;

        let res = Point { a: self.a, b: self.b, x: x_res, y: y_res };

        return res;
    }
}

/// The slope computed by either branch of the addition law is a well-formed
/// coordinate of the points' field.
pub proof fn lemma_slope_in_field<G: GraphPoint>(p: Point<G>, q: Point<G>, k: int)
    requires
        p.fields_wf(),
        q.fields_wf(),
        p.in_field(k),
        q.in_field(k),
    ensures
        p.sp_tangent_slope().c_wf() && p.sp_tangent_slope().in_field(k),
        p.sp_secant_slope(q).c_wf() && p.sp_secant_slope(q).in_field(k),
{
    lemma_c_pow_closed(p.x, 2, k);
    lemma_c_int_ops_closed(p.x.sp_pow(2), 3, k);
    lemma_c_ops_closed(p.x.sp_pow(2).sp_mul_int(3), p.a, k);
    lemma_c_int_ops_closed(p.y, 2, k);
    lemma_c_ops_closed(p.x.sp_pow(2).sp_mul_int(3).sp_add(p.a), p.y.sp_mul_int(2), k);
    lemma_c_ops_closed(q.y, p.y, k);
    lemma_c_ops_closed(q.x, p.x, k);
    lemma_c_ops_closed(q.y.sp_sub(p.y), q.x.sp_sub(p.x), k);
}

/// Adding two well-formed points of one curve and one field yields a
/// well-formed point of that same curve and field.
pub proof fn lemma_point_add_closed<G: GraphPoint>(p: Point<G>, q: Point<G>, k: int)
    requires
        p.fields_wf(),
        q.fields_wf(),
        p.in_field(k),
        q.in_field(k),
        p.curves_match(q),
    ensures
        p.sp_point_add(q).fields_wf(),
        p.sp_point_add(q).in_field(k),
        p.sp_point_add(q).a == p.a,
        p.sp_point_add(q).b == p.b,
{
    lemma_slope_in_field(p, q, k);
    let slope = if p == q {
        p.sp_tangent_slope()
    } else {
        p.sp_secant_slope(q)
    };
    lemma_c_pow_closed(slope, 2, k);
    lemma_c_ops_closed(slope.sp_pow(2), p.x, k);
    lemma_c_ops_closed(slope.sp_pow(2).sp_sub(p.x), q.x, k);
    let x_res = slope.sp_pow(2).sp_sub(p.x).sp_sub(q.x);
    lemma_c_ops_closed(p.x, x_res, k);
    lemma_c_ops_closed(slope, p.x.sp_sub(x_res), k);
    let prod = slope.sp_mul(p.x.sp_sub(x_res));
    lemma_c_ops_closed(prod, p.y, k);
}

impl<G: GraphPoint> core::ops::Add for Point<G> {
    type Output = Result<Point<G>, Error>;

    /// Point addition: fails with [`Error::CurveMismatch`] when the points
    /// lie on different curves, and otherwise applies the group law.
    fn add(self, other: Self) -> (r: Result<Point<G>, Error>) {
        if !(self.a.eq_val(&other.a) && self.b.eq_val(&other.b)) {
            return Err(Error::CurveMismatch);
        }

        if self.x.is_infinity() {
            return Ok(other);
        }

        if other.x.is_infinity() {
            return Ok(self);
        }

        return Ok(self.add_point(other));
    }
}

impl<G: GraphPoint> vstd::std_specs::ops::AddSpecImpl for Point<G> {
    open spec fn obeys_add_spec() -> bool {
        true
    }

    open spec fn add_req(self, other: Self) -> bool {
        self.wf() && other.wf() && (self.curves_match(other) ==> self.joint_field(other))
    }

    open spec fn add_spec(self, other: Self) -> Result<Point<G>, Error> {
        if self.curves_match(other) {
            Ok(self.sp_point_add(other))
        } else {
            Err(Error::CurveMismatch)
        }
    }
}

/// The state of the double-and-add loop: with `current` holding the next
/// power-of-two multiple and `result` the sum accumulated so far, the
/// remaining bits of `coef` are folded in, low bit first.
pub open spec fn sp_double_and_add<T: GraphPoint>(
    current: Point<T>,
    result: Point<T>,
    coef: nat,
) -> Point<T>
    decreases coef,
{
    if coef == 0 {
        result
    } else {
        let accumulated = if coef % 2 == 1 {
            result.sp_point_add(current)
        } else {
            result
        };
        sp_double_and_add(current.sp_point_add(current), accumulated, coef / 2)
    }
}

/// The scalar multiple `coef * point`: binary expansion starting from the
/// identity point of `point`'s curve.
pub open spec fn sp_scalar_mul<T: GraphPoint>(point: Point<T>, coef: nat) -> Point<T> {
    sp_double_and_add(point, Point::sp_identity(point.a, point.b), coef)
}

/// Computes `coefficient * point` by binary expansion of the coefficient:
/// one doubling per bit and one accumulation per set bit.
fn binary_expansion<T: GraphPoint>(point: Point<T>, coefficient: u32) -> (r: Point<T>)
    requires
        point.wf(),
    ensures
        r == sp_scalar_mul(point, coefficient as nat),
{
    let ghost k = choose|k: int| point.in_field(k);

    proof {
        assert(Coordinate::<T>::Infinity.in_field(k) && point.a.in_field(k) && point.b.in_field(
        k));
    }

    let mut coef = coefficient;
    let mut current = point;
    let mut result = Point::new(
        Coordinate::Infinity,
        Coordinate::Infinity,
        point.a,
        point.b,
    ).unwrap();

    while coef > 0
        invariant
            current.fields_wf(),
            result.fields_wf(),
            current.in_field(k),
            result.in_field(k),
            current.a == point.a && current.b == point.b,
            result.a == point.a && result.b == point.b,
            sp_double_and_add(current, result, coef as nat) == sp_scalar_mul(
                point,
                coefficient as nat,
            ),
        decreases coef,
    {
        proof {
            assert(coef & 1 == coef % 2) by (bit_vector);
            assert(coef >> 1u32 == coef / 2) by (bit_vector);
            lemma_point_add_closed(result, current, k);
            lemma_point_add_closed(current, current, k);
        }
        if coef & 1 == 1 {
            result = (result + current).unwrap();
        }

        current = (current + current).unwrap();
        coef >>= 1;
    }

    return result;
}

/// Group identity law: adding the identity point of a point's curve, on
/// either side, returns the point unchanged.  A point whose `x` alone is
/// infinite is left out: there the left addend is itself treated as the
/// identity.
pub proof fn lemma_add_identity<G: GraphPoint>(p: Point<G>)
    requires
        Point::admissible(p.x, p.y, p.a, p.b),
        p.x is Infinity ==> p.y is Infinity,
    ensures
        p.sp_point_add(Point::sp_identity(p.a, p.b)) == p,
        Point::sp_identity(p.a, p.b).sp_point_add(p) == p,
{
    if p.x is Infinity {
        assert(p.x == Coordinate::<G>::Infinity);
        assert(p.y == Coordinate::<G>::Infinity);
        assert(p == Point::sp_identity(p.a, p.b));
    }
}

/// Vertical-pair law: two distinct finite points sharing an abscissa are
/// additive inverses, so the group law sends them to the identity point.
pub proof fn lemma_vertical_pair<G: GraphPoint>(p: Point<G>, q: Point<G>)
    requires
        !(p.x is Infinity),
        p.x == q.x,
        p.y != q.y,
    ensures
        p.sp_point_add(q) == Point::sp_identity(p.a, p.b),
{
}

/// Doubling a finite point whose ordinate is zero: the tangent there is
/// vertical, so the double is the identity point.
pub proof fn lemma_double_with_zero_ordinate<G: GraphPoint>(p: Point<G>)
    requires
        !(p.x is Infinity),
        p.y.sp_is_zero(),
    ensures
        p.sp_point_add(p) == Point::sp_identity(p.a, p.b),
{
}

/// The zero multiple of any point is the identity point of its curve.
pub proof fn lemma_scalar_mul_zero<T: GraphPoint>(p: Point<T>)
    ensures
        sp_scalar_mul(p, 0) == Point::sp_identity(p.a, p.b),
{
}

/// The single multiple of a valid point is the point itself.
pub proof fn lemma_scalar_mul_one<T: GraphPoint>(p: Point<T>)
    requires
        Point::admissible(p.x, p.y, p.a, p.b),
        p.x is Infinity ==> p.y is Infinity,
    ensures
        sp_scalar_mul(p, 1) == p,
{
    let id = Point::sp_identity(p.a, p.b);
    assert(sp_double_and_add(p.sp_point_add(p), id.sp_point_add(p), 0) == id.sp_point_add(p));
    assert(sp_scalar_mul(p, 1) == id.sp_point_add(p));
    lemma_add_identity(p);
}

/// The double of a point agrees with one application of the group law to
/// the point and itself.
pub proof fn lemma_scalar_mul_two<T: GraphPoint>(p: Point<T>)
    ensures
        sp_scalar_mul(p, 2) == p.sp_point_add(p),
{
    let id = Point::sp_identity(p.a, p.b);
    let double = p.sp_point_add(p);
    assert(sp_double_and_add(double.sp_point_add(double), id.sp_point_add(double), 0)
        == id.sp_point_add(double));
    assert(sp_double_and_add(double, id, 1) == id.sp_point_add(double));
    assert(sp_scalar_mul(p, 2) == sp_double_and_add(double, id, 1));
    assert(id.sp_point_add(double) == double);
}

impl<T: GraphPoint> core::ops::Mul<Point<T>> for u32 {
    type Output = Point<T>;

    /// The scalar multiple `self * other`, by double-and-add.
    fn mul(self, other: Point<T>) -> (r: Point<T>) {
        binary_expansion(other, self)
    }
}

impl<T: GraphPoint> vstd::std_specs::ops::MulSpecImpl<Point<T>> for u32 {
    open spec fn obeys_mul_spec() -> bool {
        true
    }

    open spec fn mul_req(self, other: Point<T>) -> bool {
        other.wf()
    }

    open spec fn mul_spec(self, other: Point<T>) -> Point<T> {
        sp_scalar_mul(other, self as nat)
    }
}

impl Point<FieldElement> {
    /// The finite coordinate holding `number` in the field modulo `prime`.
    pub open spec fn ff_coord(number: u32, prime: u32) -> Coordinate<FieldElement> {
        Coordinate::Value(FieldElement { number, prime })
    }

    /// Builds a point over the prime field: four field elements at the given
    /// prime, handed to the validating constructor.
    pub fn from_finite_field(x: u32, y: u32, a: u32, b: u32, prime: u32) -> (r: Result<
        Self,
        Error,
    >)
        requires
            2 <= prime,
        ensures
            r == if !(x < prime && y < prime && a < prime && b < prime) {
                Err::<Self, Error>(Error::OutOfRange)
            } else if Self::admissible(
                Self::ff_coord(x, prime),
                Self::ff_coord(y, prime),
                Self::ff_coord(a, prime),
                Self::ff_coord(b, prime),
            ) {
                Ok::<Self, Error>(
                    Point {
                        x: Self::ff_coord(x, prime),
                        y: Self::ff_coord(y, prime),
                        a: Self::ff_coord(a, prime),
                        b: Self::ff_coord(b, prime),
                    },
                )
            } else {
                Err::<Self, Error>(Error::NotOnCurve)
            },
    {
        let x = match FieldElement::new(x, prime) {
            Ok(v) => v,
            Err(e) => return Err(e),
        };
        let y = match FieldElement::new(y, prime) {
            Ok(v) => v,
            Err(e) => return Err(e),
        };
        let a = match FieldElement::new(a, prime) {
            Ok(v) => v,
            Err(e) => return Err(e),
        };
        let b = match FieldElement::new(b, prime) {
            Ok(v) => v,
            Err(e) => return Err(e),
        };
        proof {
            assert(Coordinate::Value(x).in_field(prime as int));
        }
        Self::new(
            Coordinate::Value(x),
            Coordinate::Value(y),
            Coordinate::Value(a),
            Coordinate::Value(b),
        )
    }
}

} // verus!
