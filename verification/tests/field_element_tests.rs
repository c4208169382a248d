use elliptic_curves::{Error, FieldElement, Pow, ZeroCheck};

#[test]
fn cannot_create_element_with_number_higher_than_prime() {
    assert!(FieldElement::new(2, 1).is_err());
}

#[test]
fn can_create_element() {
    assert!(FieldElement::new(1, 2).is_ok());
}

#[test]
fn elements_with_same_number_but_different_prime_are_different() {
    let element1 = FieldElement::new(1, 2).unwrap();
    let element2 = FieldElement::new(1, 3).unwrap();
    assert_ne!(element1, element2);
}

#[test]
fn elements_with_same_prime_but_different_number_are_different() {
    let element1 = FieldElement::new(1, 2).unwrap();
    let element2 = FieldElement::new(1, 3).unwrap();
    assert_ne!(element1, element2);
}

#[test]
fn elements_with_same_prime_and_number_are_equal() {
    let element1 = FieldElement::new(1, 3).unwrap();
    let element2 = FieldElement::new(1, 3).unwrap();
    assert_eq!(element1, element2);
}

#[test]
#[should_panic]
fn cannot_add_elements_with_different_prime() {
    let element1 = FieldElement::new(1, 2).unwrap();
    let element2 = FieldElement::new(1, 3).unwrap();
    let _ = element1 + element2;
}

#[test]
fn can_add_elements_with_same_prime() {
    let element1 = FieldElement::new(1, 3).unwrap();
    let element2 = FieldElement::new(1, 3).unwrap();
    let expected = FieldElement::new(2, 3).unwrap();
    let result = element1 + element2;
    assert_eq!(result, expected);
}

#[test]
fn can_add_elements_with_same_prime_that_overflow() {
    let element1 = FieldElement::new(2, 3).unwrap();
    let element2 = FieldElement::new(2, 3).unwrap();
    let expected = FieldElement::new(1, 3).unwrap();
    let result = element1 + element2;
    assert_eq!(result, expected);
}

#[test]
#[should_panic]
fn cannot_substract_elements_with_different_prime() {
    let element1 = FieldElement::new(1, 2).unwrap();
    let element2 = FieldElement::new(1, 3).unwrap();
    let _ = element1 - element2;
}

#[test]
fn can_substract_elements_with_same_prime() {
    let element1 = FieldElement::new(1, 3).unwrap();
    let element2 = FieldElement::new(1, 3).unwrap();
    let expected = FieldElement::new(0, 3).unwrap();
    let result = element1 - element2;
    assert_eq!(result, expected);
}

#[test]
fn can_substract_elements_with_same_prime_that_underflow() {
    let element1 = FieldElement::new(1, 3).unwrap();
    let element2 = FieldElement::new(2, 3).unwrap();
    let expected = FieldElement::new(2, 3).unwrap();
    let result = element1 - element2;
    assert_eq!(result, expected);
}

#[test]
fn adding_element_and_additive_inverse_is_0() {
    let element1 = FieldElement::new(1, 3).unwrap();
    let element2 = -element1;
    let expected = FieldElement::new(0, 3).unwrap();
    let result = element1 + element2;
    assert_eq!(result, expected);
}

#[test]
#[should_panic]
fn cannot_multiply_elements_with_different_prime() {
    let element1 = FieldElement::new(1, 2).unwrap();
    let element2 = FieldElement::new(1, 3).unwrap();
    let _ = element1 * element2;
}

#[test]
fn can_multiply_elements_with_same_prime() {
    let element1 = FieldElement::new(1, 3).unwrap();
    let element2 = FieldElement::new(2, 3).unwrap();
    let expected = FieldElement::new(2, 3).unwrap();
    let result = element1 * element2;
    assert_eq!(result, expected);
}

#[test]
fn can_multiply_elements_with_same_prime_that_overflow() {
    let element1 = FieldElement::new(2, 3).unwrap();
    let element2 = FieldElement::new(2, 3).unwrap();
    let expected = FieldElement::new(1, 3).unwrap();
    let result = element1 * element2;
    assert_eq!(result, expected);
}

#[test]
fn multiplying_by_0_results_in_0() {
    let element1 = FieldElement::new(2, 3).unwrap();
    let element2 = FieldElement::new(0, 3).unwrap();
    let expected = FieldElement::new(0, 3).unwrap();
    let result = element1 * element2;
    assert_eq!(result, expected);
}

#[test]
fn can_raise_element_to_power_of() {
    let element = FieldElement::new(3, 13).unwrap();
    let expected = FieldElement::new(1, 13).unwrap();
    assert_eq!(element.pow(3), expected);
}

#[test]
fn fermat_theorem() {
    let prime = 31;
    let set_res: Result<Vec<FieldElement>, Error> =
        (0..prime).map(|x| FieldElement::new(x, prime)).collect();
    let set = set_res.unwrap();
    let mut set_power = set.iter().map(|x| x.pow(prime as i32 - 1));

    set_power.next();
    for elem in set_power {
        assert_eq!(elem.number, 1);
    }
}

#[test]
#[should_panic]
fn cannot_divide_elements_with_different_prime() {
    let element1 = FieldElement::new(1, 2).unwrap();
    let element2 = FieldElement::new(1, 3).unwrap();
    let _ = element1 / element2;
}

#[test]
fn can_divide_elements_with_denominator_bigger_than_numerator() {
    let element1 = FieldElement::new(2, 19).unwrap();
    let element2 = FieldElement::new(7, 19).unwrap();
    let expected = FieldElement::new(3, 19).unwrap();
    let result = element1 / element2;
    assert_eq!(result, expected);
}

#[test]
fn can_divide_elements_with_numerator_bigger_than_denominator() {
    let element1 = FieldElement::new(7, 19).unwrap();
    let element2 = FieldElement::new(5, 19).unwrap();
    let expected = FieldElement::new(9, 19).unwrap();
    let result = element1 / element2;
    assert_eq!(result, expected);
}

#[test]
fn can_raise_element_to_power_of_negative_exponent() {
    let element = FieldElement::new(7, 13).unwrap();
    let expected = FieldElement::new(8, 13).unwrap();
    assert_eq!(element.pow(-3), expected);
}

#[test]
fn out_of_range_construction_reports_the_error() {
    assert_eq!(FieldElement::new(5, 5), Err(Error::OutOfRange));
    assert_eq!(FieldElement::new(17, 5), Err(Error::OutOfRange));
}

#[test]
fn boundary_constructions() {
    assert!(FieldElement::new(0, 2).is_ok());
    assert!(FieldElement::new(4, 5).is_ok());
    assert!(FieldElement::new(0, u32::MAX).is_ok());
    assert!(FieldElement::new(u32::MAX - 1, u32::MAX).is_ok());
    assert!(FieldElement::new(u32::MAX, u32::MAX).is_err());
}

#[test]
fn large_prime_arithmetic_does_not_overflow() {
    // 4294967291 is the largest prime below 2^32.
    let prime = 4294967291;
    let a = FieldElement::new(prime - 1, prime).unwrap();
    let b = FieldElement::new(prime - 2, prime).unwrap();
    assert_eq!(a + b, FieldElement::new(prime - 3, prime).unwrap());
    // (p-1)*(p-2) = p^2 - 3p + 2 == 2 (mod p).
    assert_eq!(a * b, FieldElement::new(2, prime).unwrap());
}

#[test]
fn inverse_multiplies_to_one() {
    let element = FieldElement::new(7, 19).unwrap();
    let inv = element.inverse();
    assert_eq!(inv, FieldElement::new(11, 19).unwrap());
    assert_eq!(element * inv, FieldElement::new(1, 19).unwrap());
}

#[test]
fn power_of_zero_exponent_is_one() {
    let element = FieldElement::new(5, 7).unwrap();
    assert_eq!(element.pow(0), FieldElement::new(1, 7).unwrap());
}

#[test]
fn is_zero_reports_the_additive_identity() {
    assert!(FieldElement::new(0, 7).unwrap().is_zero());
    assert!(!FieldElement::new(3, 7).unwrap().is_zero());
}

#[test]
fn scalar_integer_operations_wrap_modulo_prime() {
    let element = FieldElement::new(5, 7).unwrap();
    assert_eq!(element + 4, FieldElement::new(2, 7).unwrap());
    assert_eq!(element + (-6), FieldElement::new(6, 7).unwrap());
    assert_eq!(element * 3, FieldElement::new(1, 7).unwrap());
    assert_eq!(element * (-1), FieldElement::new(2, 7).unwrap());
}
