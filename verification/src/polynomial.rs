//! Polynomials with integer coefficients, evaluated exactly.

use vstd::arithmetic::power::pow;
use vstd::prelude::*;

verus! {

/// A polynomial of degree `N - 1`, held as its `N` coefficients from the
/// highest power down to the constant term.
#[derive(Debug, Clone, Copy)]
pub struct Polynomial<const N: usize>(pub [i128; N]);

/// The term that coefficient `i` contributes at `x`: the coefficient times the
/// power of `x` that its place stands for.
pub open spec fn term(coefficients: Seq<i128>, x: int, i: int) -> int {
    coefficients[i] * pow(x, (coefficients.len() - 1 - i) as nat)
}

/// The sum of the first `count` terms at `x`.
pub open spec fn partial_sum(coefficients: Seq<i128>, x: int, count: nat) -> int
    decreases count,
{
    if count == 0 {
        0
    } else {
        partial_sum(coefficients, x, (count - 1) as nat) + term(coefficients, x, count - 1)
    }
}

/// The value of the polynomial at `x`: the sum of all its terms.
pub open spec fn value_at(coefficients: Seq<i128>, x: int) -> int {
    partial_sum(coefficients, x, coefficients.len())
}

/// Whether `value` can be held in the accumulator.
pub open spec fn fits(value: int) -> bool {
    i128::MIN <= value <= i128::MAX
}

/// Whether taking coefficient `index` into account stays within the
/// accumulator: the value of the leading `index` coefficients times `x`, and
/// the value of the leading `index + 1` coefficients, both fit.
pub open spec fn step_fits(coefficients: Seq<i128>, x: int, index: int) -> bool {
    &&& fits(value_at(coefficients.take(index), x) * x)
    &&& fits(value_at(coefficients.take(index + 1), x))
}

/// Whether the polynomial can be evaluated at `x` within the accumulator:
/// every step from the leading coefficient to the constant term fits.
pub open spec fn evaluable(coefficients: Seq<i128>, x: int) -> bool {
    forall|index: int| 0 <= index < coefficients.len() ==> step_fits(coefficients, x, index)
}

impl<const N: usize> Polynomial<N> {
    /// The coefficients, highest power first.
    pub open spec fn view(self) -> Seq<i128> {
        self.0@
    }

    /// Evaluates the polynomial at `x` by Horner's method. The value is exact;
    /// there is none where a step leaves the range of the accumulator.
    pub fn evaluate(self, x: i128) -> (value: Option<i128>)
        ensures
            value == (if evaluable(self@, x as int) {
                Some(value_at(self@, x as int) as i128)
            } else {
                None
            }),
            evaluable(self@, x as int) ==> fits(value_at(self@, x as int)),
    {
        let mut accumulator: i128 = 0;
        let mut index: usize = 0;
        while index < N
            invariant
                index <= N,
                self@.len() == N,
                accumulator == value_at(self@.take(index as int), x as int),
                forall|earlier: int| 0 <= earlier < index ==> step_fits(self@, x as int, earlier),
            decreases N - index,
        {
            proof {
                horner_step(self@, x as int, index as int);
            }
            let scaled: i128 = match accumulator.checked_mul(x) {
                Some(scaled) => scaled,
                None => {
                    assert(!step_fits(self@, x as int, index as int));
                    return None;
                },
            };
            let next: i128 = match scaled.checked_add(self.0[index]) {
                Some(next) => next,
                None => {
                    assert(!step_fits(self@, x as int, index as int));
                    return None;
                },
            };
            accumulator = next;
            index = index + 1;
        }
        assert(self@.take(N as int) =~= self@);
        Some(accumulator)
    }
}

/// Raising the power of every term by one multiplies a partial sum by `x`:
/// the leading `count` terms of the first `length + 1` coefficients sum to
/// `x` times the same terms of the first `length` coefficients.
proof fn lemma_partial_sum_shift(coefficients: Seq<i128>, x: int, length: int, count: nat)
    requires
        0 <= count <= length < coefficients.len(),
    ensures
        partial_sum(coefficients.take(length + 1), x, count) == partial_sum(
            coefficients.take(length),
            x,
            count,
        ) * x,
    decreases count,
{
    if count > 0 {
        let shorter = coefficients.take(length);
        let longer = coefficients.take(length + 1);
        let before = (count - 1) as nat;
        lemma_partial_sum_shift(coefficients, x, length, before);
        let power = pow(x, (length - count) as nat);
        assert(pow(x, (length - count + 1) as nat) == x * power) by {
            reveal(pow);
        }
        assert(term(shorter, x, count - 1) == coefficients[count - 1] * power);
        assert(term(longer, x, count - 1) == coefficients[count - 1] * (x * power));
        let sum = partial_sum(shorter, x, before);
        let coefficient = coefficients[count - 1] as int;
        assert(sum * x + coefficient * (x * power) == (sum + coefficient * power) * x)
            by (nonlinear_arith);
    }
}

/// One step of Horner's method: the value of the leading `index + 1`
/// coefficients is `x` times the value of the leading `index` coefficients,
/// plus coefficient `index`.
pub proof fn horner_step(coefficients: Seq<i128>, x: int, index: int)
    requires
        0 <= index < coefficients.len(),
    ensures
        value_at(coefficients.take(index + 1), x) == value_at(coefficients.take(index), x) * x
            + coefficients[index],
{
    lemma_partial_sum_shift(coefficients, x, index, index as nat);
    assert(pow(x, 0) == 1) by {
        reveal(pow);
    }
    assert(term(coefficients.take(index + 1), x, index) == coefficients[index] * 1);
}

/// The largest size that the value of `count` coefficients can have, if no
/// coefficient is further from zero than `largest` and `x` no further than
/// `limit`.
pub open spec fn worst_case(count: nat, limit: nat, largest: nat) -> nat
    decreases count,
{
    if count == 0 {
        0
    } else {
        worst_case((count - 1) as nat, limit, largest) * limit + largest
    }
}

/// The worst case does not shrink with one more coefficient.
proof fn lemma_worst_case_step(count: nat, limit: nat, largest: nat)
    ensures
        worst_case(count, limit, largest) <= worst_case(count + 1, limit, largest),
{
    let smaller = worst_case(count, limit, largest);
    if limit == 0 {
        if count > 0 {
            lemma_worst_case_flat(count, largest);
        }
        assert(smaller * limit == 0) by (nonlinear_arith)
            requires
                limit == 0,
        ;
    } else {
        assert(smaller * limit >= smaller) by (nonlinear_arith)
            requires
                limit >= 1,
                smaller >= 0,
        ;
    }
}

/// The worst case does not shrink with the number of coefficients.
proof fn lemma_worst_case_grows(fewer: nat, more: nat, limit: nat, largest: nat)
    requires
        fewer <= more,
    ensures
        worst_case(fewer, limit, largest) <= worst_case(more, limit, largest),
    decreases more,
{
    if fewer < more {
        lemma_worst_case_grows(fewer, (more - 1) as nat, limit, largest);
        lemma_worst_case_step((more - 1) as nat, limit, largest);
    }
}

/// Where `x` is zero, only the constant term counts.
proof fn lemma_worst_case_flat(count: nat, largest: nat)
    requires
        count >= 1,
    ensures
        worst_case(count, 0, largest) == largest,
{
    assert(worst_case((count - 1) as nat, 0, largest) * 0 == 0) by (nonlinear_arith);
}

/// The value of the leading `count` coefficients is within the worst case.
proof fn lemma_within_worst_case(
    coefficients: Seq<i128>,
    x: int,
    limit: nat,
    largest: nat,
    count: nat,
)
    requires
        -limit <= x <= limit,
        forall|index: int|
            0 <= index < coefficients.len() ==> -largest <= #[trigger] coefficients[index]
                <= largest,
        count <= coefficients.len(),
    ensures
        -worst_case(count, limit, largest) <= value_at(coefficients.take(count as int), x)
            <= worst_case(count, limit, largest),
        count > 0 ==> -worst_case(count, limit, largest) + largest <= value_at(
            coefficients.take(count - 1),
            x,
        ) * x <= worst_case(count, limit, largest) - largest,
    decreases count,
{
    if count > 0 {
        let before = (count - 1) as nat;
        lemma_within_worst_case(coefficients, x, limit, largest, before);
        horner_step(coefficients, x, before as int);
        let value = value_at(coefficients.take(before as int), x);
        let bound = worst_case(before, limit, largest);
        assert(-(bound * limit) <= value * x <= bound * limit) by (nonlinear_arith)
            requires
                -bound <= value <= bound,
                -limit <= x <= limit,
        ;
    }
}

/// Evaluation succeeds wherever the worst case fits the accumulator: if no
/// coefficient is further from zero than `largest`, and `x` no further than
/// `limit`, every step stays within the worst case of all the coefficients.
pub proof fn bounded_is_evaluable(coefficients: Seq<i128>, x: int, limit: nat, largest: nat)
    requires
        -limit <= x <= limit,
        forall|index: int|
            0 <= index < coefficients.len() ==> -largest <= #[trigger] coefficients[index]
                <= largest,
        worst_case(coefficients.len(), limit, largest) <= i128::MAX,
    ensures
        evaluable(coefficients, x),
        -worst_case(coefficients.len(), limit, largest) <= value_at(coefficients, x) <= worst_case(
            coefficients.len(),
            limit,
            largest,
        ),
{
    assert forall|index: int| 0 <= index < coefficients.len() implies step_fits(
        coefficients,
        x,
        index,
    ) by {
        lemma_within_worst_case(coefficients, x, limit, largest, (index + 1) as nat);
        lemma_worst_case_grows((index + 1) as nat, coefficients.len(), limit, largest);
    }
    lemma_within_worst_case(coefficients, x, limit, largest, coefficients.len());
    assert(coefficients.take(coefficients.len() as int) =~= coefficients);
}

/// A polynomial of one coefficient is that constant, wherever it is
/// evaluated.
pub proof fn constant_value(c: i128, x: int)
    ensures
        value_at(seq![c], x) == c,
        evaluable(seq![c], x),
{
    let coefficients = seq![c];
    reveal_with_fuel(partial_sum, 2);
    reveal_with_fuel(pow, 1);
    assert(term(coefficients, x, 0) == c * 1);
    assert forall|index: int| 0 <= index < coefficients.len() implies step_fits(
        coefficients,
        x,
        index,
    ) by {
        assert(coefficients.take(1) =~= coefficients);
        assert(value_at(coefficients.take(0), x) * x == 0) by (nonlinear_arith)
            requires
                value_at(coefficients.take(0), x) == 0,
        ;
    }
}

/// A polynomial of two coefficients is the linear function `a * x + b`.
pub proof fn linear_value(a: i128, b: i128, x: int)
    ensures
        value_at(seq![a, b], x) == a * x + b,
{
    let coefficients = seq![a, b];
    reveal_with_fuel(partial_sum, 3);
    reveal_with_fuel(pow, 2);
    assert(term(coefficients, x, 1) == b * 1);
    assert(term(coefficients, x, 0) == a * (x * 1));
}

/// A polynomial of four coefficients is the cubic
/// `a * x^3 + b * x^2 + c * x + d`.
pub proof fn cubic_value(a: i128, b: i128, c: i128, d: i128, x: int)
    ensures
        value_at(seq![a, b, c, d], x) == a * x * x * x + b * x * x + c * x + d,
{
    let coefficients = seq![a, b, c, d];
    reveal_with_fuel(partial_sum, 5);
    reveal_with_fuel(pow, 4);
    assert(term(coefficients, x, 3) == d * 1);
    assert(term(coefficients, x, 2) == c * (x * 1));
    assert(term(coefficients, x, 1) == b * (x * (x * 1)));
    assert(term(coefficients, x, 0) == a * (x * (x * (x * 1))));
    assert(a * (x * (x * (x * 1))) == a * x * x * x) by (nonlinear_arith);
    assert(b * (x * (x * 1)) == b * x * x) by (nonlinear_arith);
}

} // verus!
