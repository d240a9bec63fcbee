//! The correction curve: how much of a swing reaches the ball, given how far
//! the ball is from the ideal point of contact.
//!
//! The curve is the cubic `-0.646388 x^3 + 1.91648 x^2 - 2.08701 x + 1`. It
//! is one at distance zero and falls from there on; what it gives is kept
//! between nothing and the whole of the swing.

use crate::fixed::{clamp, clamp_to, floor_div, UNIT};
use crate::polynomial::{cubic_value, evaluable, horner_step, step_fits, value_at, Polynomial};
use vstd::prelude::*;

verus! {

/// Coefficient of the third power, in millionths.
pub const CUBE_COEFFICIENT: i128 = -646_388;

/// Coefficient of the second power, in millionths.
pub const SQUARE_COEFFICIENT: i128 = 1_916_480;

/// Coefficient of the first power, in millionths.
pub const LINEAR_COEFFICIENT: i128 = -2_087_010;

/// The constant term, in millionths.
pub const CONSTANT_COEFFICIENT: i128 = 1_000_000;

/// One, as a wide fixed-point number, and its second and third powers.
pub const SCALE: i128 = 1_000_000;

pub const SCALE_SQUARED: i128 = 1_000_000_000_000;

pub const SCALE_CUBED: i128 = 1_000_000_000_000_000_000;

/// From this distance on the curve is below zero.
pub const CUT_OFF: i128 = 3_000_000;

/// The curve at `distance`, as an exact integer: the value of the cubic times
/// the fourth power of the scale. Each coefficient carries one factor of the
/// scale, and each power of the distance that a term lacks is made up by a
/// further factor.
pub open spec fn curve_value(distance: int) -> int {
    CUBE_COEFFICIENT * distance * distance * distance + SQUARE_COEFFICIENT * SCALE * distance
        * distance + LINEAR_COEFFICIENT * SCALE_SQUARED * distance + CONSTANT_COEFFICIENT
        * SCALE_CUBED
}

/// The share of a swing that reaches a ball at `distance` from the ideal
/// point of contact: the curve, rounded down to a fixed-point number and kept
/// between zero and one.
pub open spec fn correction(distance: int) -> int {
    clamp(curve_value(distance) / (SCALE_CUBED as int), 0, UNIT as int)
}

/// The coefficients of the curve, each with the factors of the scale that
/// make its term an integer.
pub open spec fn curve_coefficients() -> Seq<i128> {
    seq![
        CUBE_COEFFICIENT,
        (SQUARE_COEFFICIENT * SCALE) as i128,
        (LINEAR_COEFFICIENT * SCALE_SQUARED) as i128,
        (CONSTANT_COEFFICIENT * SCALE_CUBED) as i128,
    ]
}

/// The correction curve as a polynomial in the distance.
pub fn correction_curve() -> (curve: Polynomial<4>)
    ensures
        curve@ == curve_coefficients(),
{
    let curve = Polynomial(
        [
            CUBE_COEFFICIENT,
            SQUARE_COEFFICIENT * SCALE,
            LINEAR_COEFFICIENT * SCALE_SQUARED,
            CONSTANT_COEFFICIENT * SCALE_CUBED,
        ],
    );
    assert(curve@ =~= curve_coefficients());
    curve
}

/// The share of a swing that reaches a ball at `distance_error` from the
/// ideal point of contact, between zero and one.
pub fn correction_multiplier(distance_error: i128) -> (multiplier: i64)
    ensures
        multiplier == correction(distance_error as int),
        0 <= multiplier <= UNIT,
{
    if distance_error <= 0 {
        proof {
            whole_swing_up_to_zero(distance_error as int);
        }
        UNIT
    } else if distance_error >= CUT_OFF {
        proof {
            no_swing_from_cut_off(distance_error as int);
        }
        0
    } else {
        let curve = correction_curve();
        proof {
            lemma_curve_evaluable(distance_error as int);
        }
        match curve.evaluate(distance_error) {
            Some(value) => clamp_to(floor_div(value, SCALE_CUBED), 0, UNIT),
            None => 0,
        }
    }
}

/// Whatever the curve gives, the share of the swing is between nothing and
/// all of it.
pub proof fn correction_is_a_share(distance: int)
    ensures
        0 <= correction(distance) <= UNIT,
        curve_value(distance) > UNIT * SCALE_CUBED ==> correction(distance) == UNIT,
        curve_value(distance) < 0 ==> correction(distance) == 0,
{
}

/// The further the ball is from the ideal point of contact, the less of the
/// swing reaches it: the curve falls everywhere.
pub proof fn correction_falls_with_distance(nearer: int, further: int)
    requires
        nearer <= further,
    ensures
        curve_value(nearer) >= curve_value(further),
        correction(nearer) >= correction(further),
{
    lemma_curve_value(nearer);
    lemma_curve_value(further);
    let a: int = -646_388;
    let b: int = 1_916_480_000_000;
    let c: int = -2_087_010_000_000_000_000;
    let sum = nearer + further;
    let squares = nearer * nearer + nearer * further + further * further;
    // The difference of the two values is the difference of the distances
    // times `slope`.
    let slope = a * squares + b * sum + c;
    let step = further - nearer;
    assert(further * further * further - nearer * nearer * nearer == step * squares)
        by (nonlinear_arith)
        requires
            step == further - nearer,
            squares == nearer * nearer + nearer * further + further * further,
    ;
    assert(further * further - nearer * nearer == step * sum) by (nonlinear_arith)
        requires
            step == further - nearer,
            sum == nearer + further,
    ;
    assert(a * (step * squares) + b * (step * sum) + c * step == step * slope)
        by (nonlinear_arith)
        requires
            slope == a * squares + b * sum + c,
    ;
    assert(curve_value(further) - curve_value(nearer) == step * slope);
    // The slope is below zero whatever the distances: four times the slope
    // is at most `bound`, a parabola in `sum` that stays below zero.
    let bound = 3 * a * (sum * sum) + 4 * b * sum + 4 * c;
    assert(4 * squares - 3 * (sum * sum) == (nearer - further) * (nearer - further))
        by (nonlinear_arith)
        requires
            sum == nearer + further,
            squares == nearer * nearer + nearer * further + further * further,
    ;
    assert((nearer - further) * (nearer - further) >= 0) by (nonlinear_arith);
    assert(a * (4 * squares) <= a * (3 * (sum * sum))) by (nonlinear_arith)
        requires
            a < 0,
            4 * squares >= 3 * (sum * sum),
    ;
    assert(4 * slope <= bound) by (nonlinear_arith)
        requires
            a * (4 * squares) <= a * (3 * (sum * sum)),
            slope == a * squares + b * sum + c,
            bound == 3 * a * (sum * sum) + 4 * b * sum + 4 * c,
    ;
    let root = 3 * a * sum + 2 * b;
    assert(3 * a * bound == root * root + 4 * (3 * a * c - b * b)) by (nonlinear_arith)
        requires
            bound == 3 * a * (sum * sum) + 4 * b * sum + 4 * c,
            root == 3 * a * sum + 2 * b,
    ;
    assert(root * root >= 0) by (nonlinear_arith);
    assert(3 * a * c - b * b > 0);
    assert(bound < 0) by (nonlinear_arith)
        requires
            3 * a * bound > 0,
            a < 0,
    ;
    assert(step * slope <= 0) by (nonlinear_arith)
        requires
            step >= 0,
            slope < 0,
    ;
}

/// The polynomial of the curve has the value of the curve.
pub proof fn curve_is_the_cubic(distance: int)
    ensures
        value_at(curve_coefficients(), distance) == curve_value(distance),
{
    cubic_value(
        CUBE_COEFFICIENT,
        (SQUARE_COEFFICIENT * SCALE) as i128,
        (LINEAR_COEFFICIENT * SCALE_SQUARED) as i128,
        (CONSTANT_COEFFICIENT * SCALE_CUBED) as i128,
        distance,
    );
}

/// The curve written with its four integer coefficients.
proof fn lemma_curve_value(distance: int)
    ensures
        curve_value(distance) == -646_388 * (distance * distance * distance)
            + 1_916_480_000_000 * (distance * distance) + -2_087_010_000_000_000_000 * distance
            + 1_000_000_000_000_000_000_000_000,
{
    let a = CUBE_COEFFICIENT as int;
    let b = SQUARE_COEFFICIENT * SCALE;
    let c = LINEAR_COEFFICIENT * SCALE_SQUARED;
    assert(a == -646_388);
    assert(b == 1_916_480_000_000);
    assert(c == -2_087_010_000_000_000_000);
    assert(CONSTANT_COEFFICIENT * SCALE_CUBED == 1_000_000_000_000_000_000_000_000);
    assert(a * distance * distance * distance == -646_388 * (distance * distance * distance))
        by (nonlinear_arith)
        requires
            a == -646_388,
    ;
    assert(b * distance * distance == 1_916_480_000_000 * (distance * distance))
        by (nonlinear_arith)
        requires
            b == 1_916_480_000_000,
    ;
}

/// At distance zero, and at arguments below zero, the curve is at least one:
/// the whole swing reaches the ball.
pub proof fn whole_swing_up_to_zero(distance: int)
    requires
        distance <= 0,
    ensures
        correction(distance) == UNIT,
{
    lemma_curve_value(distance);
    let square = distance * distance;
    let cube = distance * distance * distance;
    assert(square >= 0 && cube <= 0) by (nonlinear_arith)
        requires
            distance <= 0,
            square == distance * distance,
            cube == distance * distance * distance,
    ;
    assert(curve_value(distance) >= 1_000_000_000_000_000_000_000_000);
}

/// From the cut-off on the curve is below zero: nothing of the swing reaches
/// the ball.
pub proof fn no_swing_from_cut_off(distance: int)
    requires
        distance >= CUT_OFF,
    ensures
        correction(distance) == 0,
{
    lemma_curve_value(distance);
    let first = -646_388 * distance + 1_916_480_000_000;
    let second = first * distance + -2_087_010_000_000_000_000;
    let third = second * distance + 1_000_000_000_000_000_000_000_000;
    assert(first < 0);
    assert(first * distance < 0) by (nonlinear_arith)
        requires
            first < 0,
            distance > 0,
    ;
    assert(second <= -2_087_010_000_000_000_000);
    assert(second * distance <= -2_087_010_000_000_000_000 * 3_000_000) by (nonlinear_arith)
        requires
            second <= -2_087_010_000_000_000_000,
            distance >= 3_000_000,
    ;
    assert(third < 0);
    assert(third == -646_388 * (distance * distance * distance) + 1_916_480_000_000 * (distance
        * distance) + -2_087_010_000_000_000_000 * distance
        + 1_000_000_000_000_000_000_000_000) by (nonlinear_arith)
        requires
            first == -646_388 * distance + 1_916_480_000_000,
            second == first * distance + -2_087_010_000_000_000_000,
            third == second * distance + 1_000_000_000_000_000_000_000_000,
    ;
}

/// Between zero and the cut-off the curve can be evaluated exactly.
proof fn lemma_curve_evaluable(distance: int)
    requires
        0 < distance < CUT_OFF,
    ensures
        evaluable(curve_coefficients(), distance),
        value_at(curve_coefficients(), distance) == curve_value(distance),
{
    let coefficients = curve_coefficients();
    curve_is_the_cubic(distance);
    horner_step(coefficients, distance, 0);
    horner_step(coefficients, distance, 1);
    horner_step(coefficients, distance, 2);
    horner_step(coefficients, distance, 3);
    let v0 = value_at(coefficients.take(0), distance);
    let v1 = value_at(coefficients.take(1), distance);
    let v2 = value_at(coefficients.take(2), distance);
    let v3 = value_at(coefficients.take(3), distance);
    assert(v0 == 0);
    assert(v0 * distance == 0) by (nonlinear_arith)
        requires
            v0 == 0,
    ;
    assert(v1 == CUBE_COEFFICIENT);
    lemma_scaled_bound(v1, distance, 1_000_000);
    assert(-10_000_000_000_000 <= v2 <= 10_000_000_000_000);
    lemma_scaled_bound(v2, distance, 10_000_000_000_000);
    assert(-100_000_000_000_000_000_000 <= v3 <= 100_000_000_000_000_000_000);
    lemma_scaled_bound(v3, distance, 100_000_000_000_000_000_000);
    assert forall|index: int| 0 <= index < coefficients.len() implies step_fits(
        coefficients,
        distance,
        index,
    ) by {
        assert(index == 0 || index == 1 || index == 2 || index == 3);
    }
}

/// A value within `bound` of zero, times a distance below the cut-off, is
/// within the cut-off times `bound` of zero.
proof fn lemma_scaled_bound(value: int, distance: int, bound: int)
    requires
        -bound <= value <= bound,
        0 < distance < CUT_OFF,
    ensures
        -CUT_OFF * bound <= value * distance <= CUT_OFF * bound,
{
    assert(-3_000_000 * bound <= value * distance <= 3_000_000 * bound) by (nonlinear_arith)
        requires
            -bound <= value <= bound,
            0 < distance < 3_000_000,
    ;
}

} // verus!
