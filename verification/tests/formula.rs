use retro_wicket::correction::{
    CONSTANT_COEFFICIENT, CUBE_COEFFICIENT, LINEAR_COEFFICIENT, SQUARE_COEFFICIENT,
};
use retro_wicket::formula::{poly, read_decimal, strip_spaces, terms, Reading};

fn decimal(text: &str) -> Reading {
    read_decimal(text.as_bytes(), 0, text.len())
}

fn number(value: i64) -> Reading {
    Reading::Number(value)
}

#[test]
fn correction_curve_is_the_documented_formula() {
    let read = poly("y = -0.646388x ^ 3 + 1.91648x ^ 2 - 2.08701x + 1").unwrap();
    assert_eq!(read, vec![-646_388, 1_916_480, -2_087_010, 1_000_000]);
    let curve = [
        CUBE_COEFFICIENT,
        SQUARE_COEFFICIENT,
        LINEAR_COEFFICIENT,
        CONSTANT_COEFFICIENT,
    ];
    assert_eq!(read.iter().map(|c| *c as i128).collect::<Vec<_>>(), curve);
}

#[test]
fn spaces_do_not_count_in_a_formula() {
    assert_eq!(poly("y=2x+1"), Some(vec![2_000_000, 1_000_000]));
    assert_eq!(poly(" y = 2 x + 1 "), Some(vec![2_000_000, 1_000_000]));
    assert_eq!(poly("y  =  2  x  ^  1  +  1"), Some(vec![2_000_000, 1_000_000]));
    assert_eq!(poly("y = 1 0 x"), Some(vec![10_000_000, 0]));
}

#[test]
fn spaces_are_stripped() {
    assert_eq!(strip_spaces(b" a  b c "), b"abc");
    assert_eq!(strip_spaces(b""), b"");
    assert_eq!(strip_spaces(b"   "), b"");
    assert_eq!(strip_spaces(b"a\tb\nc"), b"a\tb\nc");
}

#[test]
fn terms_take_the_text_as_it_stands() {
    assert_eq!(terms("y=2x+1"), Some(vec![2_000_000, 1_000_000]));
    assert_eq!(terms("y = 2x + 1"), None);
    assert_eq!(terms("y=2x +1"), Some(vec![2_000_000, 1_000_000]));
}

#[test]
fn formula_begins_with_y_equals() {
    assert_eq!(poly(""), None);
    assert_eq!(poly("y"), None);
    assert_eq!(poly("y="), None);
    assert_eq!(poly("y =   "), None);
    assert_eq!(poly("2x+1"), None);
    assert_eq!(poly("z=2x+1"), None);
    assert_eq!(poly("Y=2x+1"), None);
    assert_eq!(poly("y-2x+1"), None);
    assert_eq!(poly("=2x+1"), None);
}

#[test]
fn constant_formula_has_one_coefficient() {
    assert_eq!(poly("y=5"), Some(vec![5_000_000]));
    assert_eq!(poly("y=-0.25"), Some(vec![-250_000]));
    assert_eq!(poly("y=0"), Some(vec![0]));
}

#[test]
fn powers_without_a_term_have_coefficient_zero() {
    assert_eq!(poly("y=x^3+1"), Some(vec![1_000_000, 0, 0, 1_000_000]));
    assert_eq!(poly("y=4x^2"), Some(vec![4_000_000, 0, 0]));
    assert_eq!(poly("y=2x"), Some(vec![2_000_000, 0]));
}

#[test]
fn terms_with_x_may_come_in_any_order() {
    assert_eq!(poly("y=2x+3x^2+1"), Some(vec![3_000_000, 2_000_000, 1_000_000]));
    assert_eq!(poly("y=3x^2+2x+1"), Some(vec![3_000_000, 2_000_000, 1_000_000]));
    assert_eq!(poly("y=4x+5x^3+6x^2"), Some(vec![5_000_000, 6_000_000, 4_000_000, 0]));
}

#[test]
fn constant_before_an_x_runs_into_its_coefficient() {
    // All the text up to the `x` is the coefficient, and `1+2` is no number.
    assert_eq!(poly("y=1+2x+3x^2"), Some(vec![3_000_000, 1_000_000, 0]));
}

#[test]
fn last_term_of_a_power_decides() {
    assert_eq!(poly("y=2x+3x"), Some(vec![3_000_000, 0]));
    assert_eq!(poly("y=1x^2+5x^2+7x^2+4"), Some(vec![7_000_000, 0, 4_000_000]));
    assert_eq!(poly("y=3x^0+4"), Some(vec![4_000_000]));
}

#[test]
fn missing_coefficient_is_one() {
    assert_eq!(poly("y=x"), Some(vec![1_000_000, 0]));
    assert_eq!(poly("y=x^2"), Some(vec![1_000_000, 0, 0]));
    assert_eq!(poly("y=2x^2x"), Some(vec![2_000_000, 1_000_000, 0]));
}

#[test]
fn text_that_is_no_number_is_the_coefficient_one() {
    assert_eq!(poly("y=-x"), Some(vec![1_000_000, 0]));
    assert_eq!(poly("y=+x"), Some(vec![1_000_000, 0]));
    assert_eq!(poly("y=abc"), Some(vec![1_000_000]));
    assert_eq!(poly("y=2*x"), Some(vec![1_000_000, 0]));
    assert_eq!(poly("y=1e"), Some(vec![1_000_000]));
    assert_eq!(poly("y=1.2.3x"), Some(vec![1_000_000, 0]));
    assert_eq!(poly("y=3x^2-"), Some(vec![3_000_000, 0, 1_000_000]));
}

#[test]
fn coefficient_is_cut_off_below_a_millionth() {
    assert_eq!(poly("y=0.1234567"), Some(vec![123_456]));
    assert_eq!(poly("y=1.2345678x"), Some(vec![1_234_567, 0]));
    assert_eq!(poly("y=-0.6463889x^2+0.0000009"), Some(vec![-646_388, 0, 0]));
    assert_eq!(terms("y=0.99999999999999999999"), Some(vec![999_999]));
}

#[test]
fn coefficient_may_have_an_exponent_of_ten() {
    assert_eq!(poly("y=1e5"), Some(vec![100_000_000_000]));
    assert_eq!(poly("y=2e1x+5E-1"), Some(vec![20_000_000, 500_000]));
    assert_eq!(poly("y=-1.5e+2x^2"), Some(vec![-150_000_000, 0, 0]));
    assert_eq!(poly("y=1e-6"), Some(vec![1]));
    assert_eq!(poly("y=1e-7"), Some(vec![0]));
}

#[test]
fn coefficient_that_cannot_be_held_leaves_no_formula() {
    assert_eq!(poly("y=inf"), None);
    assert_eq!(poly("y=-Infinity"), None);
    assert_eq!(poly("y=NaN"), None);
    assert_eq!(poly("y=1e13"), None);
    assert_eq!(poly("y=9223372036854.775808"), None);
    assert_eq!(poly("y=99999999999999999999x+1"), None);
    assert_eq!(poly("y=2x^2+1e40x+1"), None);
    assert_eq!(poly("y=1x+nan"), None);
    assert_eq!(poly("y=9223372036854.775807"), Some(vec![i64::MAX]));
    assert_eq!(poly("y=-9223372036854.775808"), Some(vec![i64::MIN]));
}

#[test]
fn missing_exponent_is_one() {
    assert_eq!(poly("y=3x^"), Some(vec![3_000_000, 0]));
    assert_eq!(poly("y=3x^+2"), Some(vec![3_000_000, 2_000_000]));
    assert_eq!(poly("y=3x^-2"), Some(vec![3_000_000, -2_000_000]));
}

#[test]
fn exponent_is_the_run_of_digits_after_the_caret() {
    assert_eq!(poly("y=3x^2"), Some(vec![3_000_000, 0, 0]));
    assert_eq!(poly("y=3x^002"), Some(vec![3_000_000, 0, 0]));
    assert_eq!(poly("y=3x^0"), Some(vec![3_000_000]));
    assert_eq!(poly("y=3x^1+1"), Some(vec![3_000_000, 1_000_000]));
    assert_eq!(poly("y=3x^2.5"), Some(vec![3_000_000, 0, 500_000]));
    assert_eq!(poly("y=3x^12").map(|list| list.len()), Some(13));
}

#[test]
fn exponent_beyond_thirty_two_bits_is_one() {
    assert_eq!(poly("y=3x^4294967296"), Some(vec![3_000_000, 0]));
    assert_eq!(poly("y=3x^99999999999999999999999999"), Some(vec![3_000_000, 0]));
}

#[test]
fn formula_may_be_of_any_degree() {
    let read = poly("y=1x^1001").unwrap();
    assert_eq!(read.len(), 1_002);
    assert_eq!(read[0], 1_000_000);
    assert!(read[1..].iter().all(|c| *c == 0));
    let read = poly("y=x^1000+7").unwrap();
    assert_eq!(read.len(), 1_001);
    assert_eq!(read[1_000], 7_000_000);
    let read = terms("y=-2.5x^100000+3x^50000+7").unwrap();
    assert_eq!(read.len(), 100_001);
    assert_eq!(read[0], -2_500_000);
    assert_eq!(read[50_000], 3_000_000);
    assert_eq!(read[100_000], 7_000_000);
    assert_eq!(read.iter().filter(|c| **c != 0).count(), 3);
}

#[test]
fn written_polynomial_is_read_as_written() {
    // Terms in falling order of their powers, every coefficient a number.
    let read = terms("y=4x^7-3.25x^4+0.5x^3-x^0").unwrap();
    assert_eq!(read, vec![4_000_000, 0, 0, -3_250_000, 500_000, 0, 0, 1_000_000]);
    let read = terms("y=4x^7-3.25x^4+0.5x^3-1").unwrap();
    assert_eq!(read, vec![4_000_000, 0, 0, -3_250_000, 500_000, 0, 0, -1_000_000]);
}

#[test]
fn decimal_numbers_are_read_in_millionths() {
    assert_eq!(decimal("0"), number(0));
    assert_eq!(decimal("1"), number(1_000_000));
    assert_eq!(decimal("-1"), number(-1_000_000));
    assert_eq!(decimal("+1"), number(1_000_000));
    assert_eq!(decimal("1.91648"), number(1_916_480));
    assert_eq!(decimal("-0.646388"), number(-646_388));
    assert_eq!(decimal("0.000001"), number(1));
    assert_eq!(decimal("-0.000001"), number(-1));
    assert_eq!(decimal("007.100"), number(7_100_000));
    assert_eq!(decimal("-0"), number(0));
    assert_eq!(decimal("12345.678901"), number(12_345_678_901));
}

#[test]
fn decimal_number_may_lack_either_side_of_the_point() {
    assert_eq!(decimal(".5"), number(500_000));
    assert_eq!(decimal("5."), number(5_000_000));
    assert_eq!(decimal("-.5"), number(-500_000));
    assert_eq!(decimal("+5."), number(5_000_000));
    assert_eq!(decimal(".5e1"), number(5_000_000));
    assert_eq!(decimal("5.e1"), number(50_000_000));
    assert_eq!(decimal("."), Reading::Nothing);
    assert_eq!(decimal("-."), Reading::Nothing);
    assert_eq!(decimal(".e1"), Reading::Nothing);
}

#[test]
fn decimal_number_has_a_digit() {
    assert_eq!(decimal(""), Reading::Nothing);
    assert_eq!(decimal("-"), Reading::Nothing);
    assert_eq!(decimal("+"), Reading::Nothing);
    assert_eq!(decimal("e5"), Reading::Nothing);
    assert_eq!(decimal("-e5"), Reading::Nothing);
}

#[test]
fn places_below_a_millionth_are_cut_off() {
    assert_eq!(decimal("0.123456"), number(123_456));
    assert_eq!(decimal("0.1234567"), number(123_456));
    assert_eq!(decimal("0.1234569"), number(123_456));
    assert_eq!(decimal("-0.1234569"), number(-123_456));
    assert_eq!(decimal("1.0000000"), number(1_000_000));
    assert_eq!(decimal("0.0000009"), number(0));
    assert_eq!(decimal("-0.0000009"), number(0));
    assert_eq!(decimal("2.00000099999999999999999999999999999999999"), number(2_000_000));
}

#[test]
fn exponent_moves_the_point() {
    assert_eq!(decimal("1e0"), number(1_000_000));
    assert_eq!(decimal("1e5"), number(100_000_000_000));
    assert_eq!(decimal("1E5"), number(100_000_000_000));
    assert_eq!(decimal("1e+2"), number(100_000_000));
    assert_eq!(decimal("1e-3"), number(1_000));
    assert_eq!(decimal("1.5e2"), number(150_000_000));
    assert_eq!(decimal("-1.5e-2"), number(-15_000));
    assert_eq!(decimal("12345e-10"), number(1));
    assert_eq!(decimal("12345e-11"), number(0));
    assert_eq!(decimal("0.000123456789e4"), number(1_234_567));
    assert_eq!(decimal("0000.0001e4"), number(1_000_000));
    assert_eq!(decimal("123456789e-3"), number(123_456_789_000));
    assert_eq!(decimal("1e007"), number(10_000_000_000_000));
    assert_eq!(decimal("9e12"), number(9_000_000_000_000_000_000));
}

#[test]
fn exponent_needs_digits_and_nothing_after_them() {
    for text in ["1e", "1e+", "1e-", "1e5.5", "1e5e5", "1e 5", "1e5 ", "1ee5", "1e++5", "1e5x"] {
        assert_eq!(decimal(text), Reading::Nothing, "{text:?}");
    }
}

#[test]
fn exponent_of_any_size_is_read() {
    let huge = "9".repeat(40);
    assert_eq!(decimal(&format!("0e{huge}")), number(0));
    assert_eq!(decimal(&format!("0.000e{huge}")), number(0));
    assert_eq!(decimal(&format!("1e{huge}")), Reading::Beyond);
    assert_eq!(decimal(&format!("0.0001e{huge}")), Reading::Beyond);
    assert_eq!(decimal(&format!("1e-{huge}")), number(0));
    assert_eq!(decimal(&format!("-123.456e-{huge}")), number(0));
    assert_eq!(decimal("1e19"), Reading::Beyond);
    assert_eq!(decimal("1e13"), Reading::Beyond);
    assert_eq!(decimal("1e-19"), number(0));
    assert_eq!(decimal("10000000000000000000000000e-20"), number(100_000_000_000));
}

#[test]
fn words_for_what_is_infinite_or_no_number_cannot_be_held() {
    for text in [
        "inf", "INF", "Inf", "infinity", "Infinity", "INFINITY", "nan", "NaN", "NAN", "-inf",
        "+inf", "-nan", "+Infinity",
    ] {
        assert_eq!(decimal(text), Reading::Beyond, "{text:?}");
    }
    for text in ["in", "infi", "infinit", "infinityy", "na", "nann", "--inf", "inf ", "i", "n"] {
        assert_eq!(decimal(text), Reading::Nothing, "{text:?}");
    }
}

#[test]
fn decimal_number_holds_nothing_else() {
    for text in [
        "0x10", "1,5", "1.2.3", "--1", "+-1", "1-", "1+", " 1", "1 ", "1_000", "\u{663}",
        "1.5f", "abc", "1a",
    ] {
        assert_eq!(decimal(text), Reading::Nothing, "{text:?}");
    }
}

#[test]
fn decimal_number_is_within_the_range_of_a_scalar() {
    assert_eq!(decimal("9223372036854.775807"), number(i64::MAX));
    assert_eq!(decimal("9223372036854.7758079"), number(i64::MAX));
    assert_eq!(decimal("-9223372036854.775808"), number(i64::MIN));
    assert_eq!(decimal("-9223372036854.7758089"), number(i64::MIN));
    assert_eq!(decimal("9223372036854.775808"), Reading::Beyond);
    assert_eq!(decimal("-9223372036854.775809"), Reading::Beyond);
    assert_eq!(decimal("9223372036855"), Reading::Beyond);
    assert_eq!(decimal("-9223372036855"), Reading::Beyond);
    assert_eq!(decimal("9223372036854"), number(9_223_372_036_854_000_000));
    assert_eq!(decimal("00000000000000000000000000000001"), number(1_000_000));
    assert_eq!(decimal("99999999999999999999999999999999999999999999"), Reading::Beyond);
    assert_eq!(decimal("0.9223372036854775807e13"), number(i64::MAX));
    assert_eq!(decimal("0.9223372036854775808e13"), Reading::Beyond);
}

#[test]
fn decimal_number_is_read_from_a_part_of_the_text() {
    let text = b"y=-2.5x^3";
    assert_eq!(read_decimal(text, 2, 6), number(-2_500_000));
    assert_eq!(read_decimal(text, 3, 6), number(2_500_000));
    assert_eq!(read_decimal(text, 3, 4), number(2_000_000));
    assert_eq!(read_decimal(text, 8, 9), number(3_000_000));
    assert_eq!(read_decimal(text, 0, 9), Reading::Nothing);
    assert_eq!(read_decimal(text, 4, 4), Reading::Nothing);
    assert_eq!(read_decimal(text, 9, 9), Reading::Nothing);
}
