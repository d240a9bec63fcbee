use retro_wicket::polynomial::Polynomial;

fn cubic(a: i128, b: i128, c: i128, d: i128, x: i128) -> i128 {
    a * x * x * x + b * x * x + c * x + d
}

#[test]
fn cubic_at_zero_is_constant_term() {
    assert_eq!(Polynomial([2, -3, 5, 7]).evaluate(0), Some(7));
}

#[test]
fn cubic_at_representative_points() {
    let (a, b, c, d) = (2, -3, 5, 7);
    for x in [1, -1, 2, -4, 10, 1_000, -1_000, 1_000_000_000, -1_000_000_000] {
        assert_eq!(Polynomial([a, b, c, d]).evaluate(x), Some(cubic(a, b, c, d, x)));
    }
    assert_eq!(Polynomial([2, -3, 5, 7]).evaluate(-4), Some(-128 - 48 - 20 + 7));
    assert_eq!(
        Polynomial([2, -3, 5, 7]).evaluate(1_000_000_000),
        Some(2_000_000_000_000_000_000_000_000_000 - 3_000_000_000_000_000_000 + 5_000_000_007)
    );
}

#[test]
fn cubic_with_negative_and_zero_coefficients() {
    assert_eq!(Polynomial([-1, 0, 0, 0]).evaluate(3), Some(-27));
    assert_eq!(Polynomial([0, 0, 0, 9]).evaluate(123_456), Some(9));
    assert_eq!(Polynomial([0, 1, 0, 0]).evaluate(-12), Some(144));
}

#[test]
fn degree_zero_is_constant() {
    for x in [0, 1, -1, 77, i128::MAX, i128::MIN] {
        assert_eq!(Polynomial([42]).evaluate(x), Some(42));
    }
}

#[test]
fn degree_one_is_linear() {
    for x in [0, 1, -1, 50, -50, 1_000_000_000_000] {
        assert_eq!(Polynomial([3, -2]).evaluate(x), Some(3 * x - 2));
    }
    assert_eq!(Polynomial([3, -2]).evaluate(5), Some(13));
}

#[test]
fn no_coefficients_is_zero() {
    assert_eq!(Polynomial::<0>([]).evaluate(5), Some(0));
}

#[test]
fn coefficients_run_from_the_highest_power_down() {
    assert_eq!(Polynomial([1, 0]).evaluate(9), Some(9));
    assert_eq!(Polynomial([0, 1]).evaluate(9), Some(1));
    assert_eq!(Polynomial([1, 2, 3, 4, 5]).evaluate(10), Some(12_345));
}

#[test]
fn no_value_where_a_product_leaves_the_range() {
    assert_eq!(Polynomial([1, 0, 0]).evaluate(i128::MAX), None);
    assert_eq!(Polynomial([2, 0]).evaluate(i128::MAX), None);
}

#[test]
fn no_value_where_a_sum_leaves_the_range() {
    assert_eq!(Polynomial([i128::MAX, 1]).evaluate(1), None);
    assert_eq!(Polynomial([i128::MIN, -1]).evaluate(1), None);
}

#[test]
fn value_at_the_ends_of_the_range() {
    assert_eq!(Polynomial([1, -1]).evaluate(i128::MAX), Some(i128::MAX - 1));
    assert_eq!(Polynomial([1, 0]).evaluate(i128::MIN), Some(i128::MIN));
    assert_eq!(Polynomial([i128::MAX, 0]).evaluate(1), Some(i128::MAX));
}

#[test]
fn no_value_even_if_later_steps_would_come_back_into_range() {
    // The leading product overflows although the whole sum would fit.
    assert_eq!(Polynomial([2, -i128::MAX]).evaluate(i128::MAX), None);
}
