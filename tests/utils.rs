use precise_algebra::utils;

#[test]
fn gcd() {
    let val1 = 250;
    let val2 = 20;

    let result = utils::gcd(val1, val2);
    let expected_result = 10;

    assert_eq!(result, expected_result);
}

#[test]
fn gcd_of_zero_and_number_is_that_number() {
    assert_eq!(utils::gcd(0, 12), 12);
    assert_eq!(utils::gcd(12, 0), 12);
    assert_eq!(utils::gcd(0, 0), 0);
}

#[test]
fn gcd_magnitude_with_negative_arguments() {
    assert_eq!(utils::gcd(-4, 10).abs(), 2);
    assert_eq!(utils::gcd(-4, -6).abs(), 2);
    assert_eq!(utils::gcd(-5, 10), -5);
}

#[test]
fn gcd_of_coprime_numbers_is_one() {
    assert_eq!(utils::gcd(17, 5), 1);
}

#[test]
fn gcd_with_extreme_values() {
    assert_eq!(utils::gcd(i128::MIN, i128::MIN), i128::MIN);
    assert_eq!(utils::gcd(i128::MIN, 6), -2);
    assert_eq!(utils::gcd(i128::MAX, 1), 1);
}
