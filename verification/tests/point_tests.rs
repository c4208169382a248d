use elliptic_curves::{Coordinate, Error, FieldElement, Point};

fn fe(number: u32, prime: u32) -> FieldElement {
    FieldElement::new(number, prime).unwrap()
}

fn fc(number: u32, prime: u32) -> Coordinate<FieldElement> {
    Coordinate::Value(fe(number, prime))
}

fn inf() -> Coordinate<FieldElement> {
    Coordinate::Infinity
}

#[test]
fn can_create_point_from_finite_field() {
    let p1 = Point::from_finite_field(1, 3, 10, 9, 11);
    assert!(p1.is_ok());
}

#[test]
fn test_valid_points_on_curve() {
    let prime = 223;
    let a = fe(0, prime);
    let b = fe(7, prime);

    let valid_points = [(192, 105), (17, 56), (1, 193)];

    for (x_raw, y_raw) in valid_points {
        let x = fe(x_raw, prime);
        let y = fe(y_raw, prime);
        let p = Point::new(
            Coordinate::Value(x),
            Coordinate::Value(y),
            Coordinate::Value(a),
            Coordinate::Value(b),
        );
        assert!(p.is_ok());
    }
}

#[test]
fn test_invalid_points_on_curve() {
    let prime = 223;
    let a = fe(0, prime);
    let b = fe(7, prime);

    let invalid_points = [(200, 119), (42, 99)];

    for (x_raw, y_raw) in invalid_points {
        let x = fe(x_raw, prime);
        let y = fe(y_raw, prime);
        let p = Point::new(
            Coordinate::Value(x),
            Coordinate::Value(y),
            Coordinate::Value(a),
            Coordinate::Value(b),
        );
        assert!(p.is_err());
    }
}

#[test]
fn test_add_1() {
    let prime = 223;
    let a = 0;
    let b = 7;
    let p1 = Point::from_finite_field(170, 142, a, b, prime).unwrap();
    let p2 = Point::from_finite_field(60, 139, a, b, prime).unwrap();
    let res = p1 + p2;
    assert!(res.is_ok());
}

#[test]
fn test_add_2() {
    let prime = 223;
    let a = 0;
    let b = 7;
    let p1 = Point::from_finite_field(47, 71, a, b, prime).unwrap();
    let p2 = Point::from_finite_field(17, 56, a, b, prime).unwrap();
    let res = p1 + p2;
    assert!(res.is_ok());
}

#[test]
fn test_add_3() {
    let prime = 223;
    let a = 0;
    let b = 7;
    let p1 = Point::from_finite_field(143, 98, a, b, prime).unwrap();
    let p2 = Point::from_finite_field(76, 66, a, b, prime).unwrap();
    let res = p1 + p2;
    assert!(res.is_ok());
}

#[test]
fn scalar_multiplication_with_zero_is_point_at_infinity() {
    let prime = 223;
    let x = fe(15, prime);
    let y = fe(86, prime);
    let a = fe(0, prime);
    let b = fe(7, prime);
    let point = Point::new(
        Coordinate::Value(x),
        Coordinate::Value(y),
        Coordinate::Value(a),
        Coordinate::Value(b),
    )
    .unwrap();
    let expected = Point::new(inf(), inf(), Coordinate::Value(a), Coordinate::Value(b)).unwrap();
    let res = 0 * point;

    assert_eq!(res, expected);
}

#[test]
fn scalar_multiplication_with_non_zero_is_correct() {
    let prime = 223;
    let x = fe(47, prime);
    let y = fe(71, prime);
    let a = fe(0, prime);
    let b = fe(7, prime);
    let point = Point::new(
        Coordinate::Value(x),
        Coordinate::Value(y),
        Coordinate::Value(a),
        Coordinate::Value(b),
    )
    .unwrap();
    let res = 2 * point;
    let x_expected = fe(36, prime);
    let y_expected = fe(111, prime);
    let expected = Point::new(
        Coordinate::Value(x_expected),
        Coordinate::Value(y_expected),
        Coordinate::Value(a),
        Coordinate::Value(b),
    )
    .unwrap();

    assert_eq!(res, expected);
}

#[test]
fn scalar_multiplication_with_group_order_is_point_at_infinity() {
    let prime = 223;
    let x = fe(47, prime);
    let y = fe(71, prime);
    let a = fe(0, prime);
    let b = fe(7, prime);
    let point = Point::new(
        Coordinate::Value(x),
        Coordinate::Value(y),
        Coordinate::Value(a),
        Coordinate::Value(b),
    )
    .unwrap();
    let expected = Point::new(inf(), inf(), Coordinate::Value(a), Coordinate::Value(b)).unwrap();
    let res = 21 * point;

    assert_eq!(res, expected);
}

#[test]
fn scalar_multiplication_agrees_with_repeated_addition() {
    let prime = 223;
    let point = Point::from_finite_field(47, 71, 0, 7, prime).unwrap();
    let identity = Point::new(inf(), inf(), fc(0, prime), fc(7, prime)).unwrap();

    let mut repeated = identity;
    for n in 0u32..22 {
        assert_eq!(n * point, repeated);
        repeated = (repeated + point).unwrap();
    }
}

#[test]
fn field_membership_mirrors_integer_curve() {
    // Over the field of 223 elements, -1 is 222: (-1, -1) satisfies
    // y^2 = x^3 + 5x + 7 while (-1, -2) does not.
    let prime = 223;
    let on = Point::new(fc(222, prime), fc(222, prime), fc(5, prime), fc(7, prime));
    assert!(on.is_ok());
    let off = Point::new(fc(222, prime), fc(221, prime), fc(5, prime), fc(7, prime));
    assert_eq!(off, Err(Error::NotOnCurve));
}

#[test]
fn identity_point_is_neutral_on_both_sides() {
    let prime = 223;
    let p = Point::from_finite_field(47, 71, 0, 7, prime).unwrap();
    let identity = Point::new(inf(), inf(), fc(0, prime), fc(7, prime)).unwrap();
    assert_eq!((p + identity).unwrap(), p);
    assert_eq!((identity + p).unwrap(), p);
    assert_eq!((identity + identity).unwrap(), identity);
}

#[test]
fn vertical_pair_sums_to_infinity_over_prime_field() {
    let prime = 223;
    let p1 = Point::new(fc(222, prime), fc(1, prime), fc(5, prime), fc(7, prime)).unwrap();
    let p2 = Point::new(fc(222, prime), fc(222, prime), fc(5, prime), fc(7, prime)).unwrap();
    let expected = Point::new(inf(), inf(), fc(5, prime), fc(7, prime)).unwrap();
    assert_eq!((p1 + p2).unwrap(), expected);
}

#[test]
fn secant_addition_over_prime_field() {
    // (2, 5) + (-1, -1) = (3, -7) on y^2 = x^3 + 5x + 7, taken modulo 223.
    let prime = 223;
    let p1 = Point::new(fc(2, prime), fc(5, prime), fc(5, prime), fc(7, prime)).unwrap();
    let p2 = Point::new(fc(222, prime), fc(222, prime), fc(5, prime), fc(7, prime)).unwrap();
    let expected = Point::new(fc(3, prime), fc(216, prime), fc(5, prime), fc(7, prime)).unwrap();
    assert_eq!((p1 + p2).unwrap(), expected);
}

#[test]
fn doubling_over_prime_field() {
    // (-1, -1) + (-1, -1) = (18, 77) on y^2 = x^3 + 5x + 7, taken modulo 223.
    let prime = 223;
    let p = Point::new(fc(222, prime), fc(222, prime), fc(5, prime), fc(7, prime)).unwrap();
    let expected = Point::new(fc(18, prime), fc(77, prime), fc(5, prime), fc(7, prime)).unwrap();
    assert_eq!((p + p).unwrap(), expected);
}

#[test]
fn doubling_with_zero_ordinate_over_prime_field() {
    // (-1, 0) lies on y^2 = x^3 + 5x + 6; its tangent is vertical, so the
    // double is the identity.
    let prime = 223;
    let p = Point::new(fc(222, prime), fc(0, prime), fc(5, prime), fc(6, prime)).unwrap();
    let expected = Point::new(inf(), inf(), fc(5, prime), fc(6, prime)).unwrap();
    assert_eq!((p + p).unwrap(), expected);
}

#[test]
fn mismatched_curves_are_rejected() {
    let prime = 223;
    let p1 = Point::new(fc(222, prime), fc(1, prime), fc(5, prime), fc(7, prime)).unwrap();
    let p2 = Point::new(fc(0, prime), fc(1, prime), fc(1, prime), fc(1, prime)).unwrap();
    assert_eq!(p1 + p2, Err(Error::CurveMismatch));
}

#[test]
fn out_of_range_coordinates_are_rejected() {
    assert_eq!(
        Point::from_finite_field(223, 71, 0, 7, 223),
        Err(Error::OutOfRange)
    );
    assert_eq!(
        Point::from_finite_field(47, 71, 0, 223, 223),
        Err(Error::OutOfRange)
    );
}

#[test]
fn not_on_curve_from_finite_field_is_rejected() {
    assert_eq!(
        Point::from_finite_field(200, 119, 0, 7, 223),
        Err(Error::NotOnCurve)
    );
}

#[test]
fn coordinate_addition_keeps_infinity_as_identity() {
    assert_eq!(fc(2, 7) + inf(), fc(2, 7));
    assert_eq!(inf() + fc(2, 7), fc(2, 7));
    assert_eq!(inf() + inf(), inf());
    assert_eq!(fc(3, 7) + fc(5, 7), fc(1, 7));
}

#[test]
fn coordinate_ring_operations_propagate_infinity() {
    assert_eq!(fc(3, 7) * inf(), inf());
    assert_eq!(inf() - fc(3, 7), inf());
    assert_eq!(fc(3, 7) / inf(), inf());
    assert_eq!(fc(3, 7) * fc(5, 7), fc(1, 7));
    assert_eq!(fc(3, 7) - fc(5, 7), fc(5, 7));
}

#[test]
fn map_applies_only_to_finite_coordinates() {
    let doubled = fc(3, 7).map(|v| v + v);
    assert_eq!(doubled, fc(6, 7));
    let still_infinite = inf().map(|v| v + v);
    assert_eq!(still_infinite, inf());
}

#[test]
fn coordinate_queries() {
    let c = fc(0, 7);
    assert!(c.is_zero());
    assert!(!c.is_infinity());
    let i = inf();
    assert!(!i.is_zero());
    assert!(i.is_infinity());
}
