//! Polynomials written as text, such as
//! `y = -0.646388x^3 + 1.91648x^2 - 2.08701x + 1`.
//!
//! A formula is `y=` followed by one term or more. A term is a coefficient,
//! which is all the text up to the next `x`, then the `x` itself if there is
//! one, then a `^` and the digits of an exponent if they follow. Spaces do
//! not count.
//!
//! A coefficient is a number in decimal notation, with a sign, a point and
//! an exponent of ten or without. It is held in millionths; what it has
//! below a millionth is cut off. Text that is no number counts as the
//! coefficient one. A number that cannot be held, because it is too large or
//! is written as infinite or as no number at all, leaves the whole formula
//! without a reading.

use crate::fixed::UNIT;
use std::collections::HashMap;
use vstd::prelude::*;
use vstd::string::StringSliceAdditionalSpecFns;

verus! {

broadcast use vstd::std_specs::hash::group_hash_axioms;

/// What a text reads as when it is taken for a coefficient.
#[derive(Debug, Clone, Copy, PartialEq, Eq, Structural)]
pub enum Reading {
    /// A number, in millionths.
    Number(i64),
    /// A number that a stored scalar cannot hold.
    Beyond,
    /// No number.
    Nothing,
}

/// A term of a formula: a coefficient as it was read, and the power of `x`
/// that it goes with.
#[derive(Debug, Clone, Copy, PartialEq, Eq, Structural)]
pub struct Term {
    pub coefficient: Reading,
    pub exponent: u32,
}

impl Reading {
    /// The coefficient that the reading gives: the number, or one where there
    /// is no number.
    pub open spec fn value(self) -> i64 {
        match self {
            Reading::Number(value) => value,
            _ => UNIT,
        }
    }
}

/// The text without its spaces.
pub open spec fn without_spaces(text: Seq<u8>) -> Seq<u8>
    decreases text.len(),
{
    if text.len() == 0 {
        Seq::empty()
    } else if text.last() == 0x20 {
        without_spaces(text.drop_last())
    } else {
        without_spaces(text.drop_last()).push(text.last())
    }
}

/// Whether a byte is a decimal digit.
pub open spec fn is_digit(byte: u8) -> bool {
    0x30 <= byte <= 0x39
}

/// The value of a decimal digit; zero for any other byte.
pub open spec fn digit_of(byte: u8) -> nat {
    if is_digit(byte) {
        (byte - 0x30) as nat
    } else {
        0
    }
}

/// Whether the bytes from `from` up to `to` are decimal digits, all of them.
pub open spec fn all_digits(text: Seq<u8>, from: int, to: int) -> bool {
    forall|index: int| from <= index < to ==> is_digit(#[trigger] text[index])
}

/// The number that the digits from `from` up to `to` stand for; zero if
/// there are none.
pub open spec fn number(text: Seq<u8>, from: int, to: int) -> nat
    decreases to - from,
{
    if to <= from {
        0
    } else {
        10 * number(text, from, to - 1) + digit_of(text[to - 1])
    }
}

/// The place of the first `byte` from `from` up to `to`, or `to` if there is
/// none.
pub open spec fn first_at(text: Seq<u8>, byte: u8, from: int, to: int) -> int
    decreases to - from,
{
    if from >= to {
        to
    } else if text[from] == byte {
        from
    } else {
        first_at(text, byte, from + 1, to)
    }
}

/// The end of the run of digits that starts at `from` and goes no further
/// than `to`.
pub open spec fn run_end(text: Seq<u8>, from: int, to: int) -> int
    decreases to - from,
{
    if from >= to || !is_digit(text[from]) {
        from
    } else {
        run_end(text, from + 1, to)
    }
}

/// The place after a sign at `from`, or `from` itself if there is no sign.
pub open spec fn sign_end(text: Seq<u8>, from: int, to: int) -> int {
    if from < to && (text[from] == 0x2d || text[from] == 0x2b) {
        from + 1
    } else {
        from
    }
}

/// A letter in lower case; any other byte as it is.
pub open spec fn lower(byte: u8) -> u8 {
    if 0x41 <= byte <= 0x5a {
        (byte + 0x20) as u8
    } else {
        byte
    }
}

/// Whether the bytes from `from` up to `to` spell `word`, in either case.
pub open spec fn spells(text: Seq<u8>, from: int, to: int, word: Seq<u8>) -> bool {
    &&& to - from == word.len()
    &&& forall|index: int| 0 <= index < word.len() ==> lower(#[trigger] text[from + index])
        == word[index]
}

/// Whether the bytes from `from` up to `to` are one of the words for what is
/// infinite or no number: `inf`, `infinity`, `nan`.
pub open spec fn is_special(text: Seq<u8>, from: int, to: int) -> bool {
    ||| spells(text, from, to, seq![0x69u8, 0x6e, 0x66])
    ||| spells(text, from, to, seq![0x69u8, 0x6e, 0x66, 0x69, 0x6e, 0x69, 0x74, 0x79])
    ||| spells(text, from, to, seq![0x6eu8, 0x61, 0x6e])
}

/// Ten to the power of `exponent`.
pub open spec fn ten_power(exponent: nat) -> nat
    decreases exponent,
{
    if exponent == 0 {
        1
    } else {
        10 * ten_power((exponent - 1) as nat)
    }
}

/// What the digits from `from` up to `to` come to if the last of them
/// counts ten to the power of `weight`, the one before it ten times that,
/// and so on. A digit that would count less than one is cut off.
pub open spec fn places_sum(text: Seq<u8>, from: int, to: int, weight: int) -> nat
    decreases to - from,
{
    if to <= from {
        0
    } else if weight < 0 {
        places_sum(text, from, to - 1, weight + 1)
    } else {
        places_sum(text, from, to - 1, weight + 1) + digit_of(text[to - 1]) * ten_power(
            weight as nat,
        )
    }
}

/// Where the digits before the point end.
pub open spec fn whole_end(text: Seq<u8>, from: int, to: int) -> int {
    run_end(text, sign_end(text, from, to), to)
}

/// Where the digits after the point start: after the point, if there is one.
pub open spec fn places_start(text: Seq<u8>, from: int, to: int) -> int {
    let end = whole_end(text, from, to);
    if end < to && text[end] == 0x2e {
        end + 1
    } else {
        end
    }
}

/// Where the digits after the point end.
pub open spec fn places_end(text: Seq<u8>, from: int, to: int) -> int {
    run_end(text, places_start(text, from, to), to)
}

/// Whether an exponent of ten follows the digits: an `e` in either case.
pub open spec fn has_exponent(text: Seq<u8>, from: int, to: int) -> bool {
    let end = places_end(text, from, to);
    end < to && lower(text[end]) == 0x65
}

/// Where the digits of the exponent start: after the `e` and its sign.
pub open spec fn exponent_start(text: Seq<u8>, from: int, to: int) -> int {
    sign_end(text, places_end(text, from, to) + 1, to)
}

/// Whether the bytes from `from` up to `to` are a number: a sign or none;
/// digits, with a point among them, before them or after them, or without
/// one; and an exponent or none, which is an `e`, a sign or none, and digits.
pub open spec fn is_number(text: Seq<u8>, from: int, to: int) -> bool {
    let start = sign_end(text, from, to);
    let digits = (whole_end(text, from, to) - start) + (places_end(text, from, to) - places_start(
        text,
        from,
        to,
    ));
    &&& digits >= 1
    &&& if has_exponent(text, from, to) {
        let first = exponent_start(text, from, to);
        first < to && run_end(text, first, to) == to
    } else {
        places_end(text, from, to) == to
    }
}

/// The exponent of ten that a number is written with; zero if it is written
/// with none.
pub open spec fn exponent(text: Seq<u8>, from: int, to: int) -> int {
    if has_exponent(text, from, to) {
        let size = number(text, exponent_start(text, from, to), to);
        if text[places_end(text, from, to) + 1] == 0x2d {
            -size
        } else {
            size as int
        }
    } else {
        0
    }
}

/// The size of a number in millionths, cut off below a millionth: its digits
/// before the point, the last of which counts a million times ten to the
/// exponent, and its digits after the point, the first of which counts a
/// tenth of that.
pub open spec fn magnitude(text: Seq<u8>, from: int, to: int) -> nat {
    let start = sign_end(text, from, to);
    let first = places_start(text, from, to);
    let last = places_end(text, from, to);
    let shift = exponent(text, from, to) + 6;
    places_sum(text, start, whole_end(text, from, to), shift) + places_sum(
        text,
        first,
        last,
        shift - (last - first),
    )
}

/// What the bytes from `from` up to `to` read as.
pub open spec fn reading(text: Seq<u8>, from: int, to: int) -> Reading {
    let negative = from < to && text[from] == 0x2d;
    let value = if negative {
        -magnitude(text, from, to)
    } else {
        magnitude(text, from, to) as int
    };
    if is_special(text, sign_end(text, from, to), to) {
        Reading::Beyond
    } else if !is_number(text, from, to) {
        Reading::Nothing
    } else if i64::MIN <= value <= i64::MAX {
        Reading::Number(value as i64)
    } else {
        Reading::Beyond
    }
}

/// The exponent that the digits from `from` up to `to` stand for: the number
/// they hold, or one if there are no digits or the number is beyond 32 bits.
pub open spec fn exponent_value(text: Seq<u8>, from: int, to: int) -> nat {
    if to <= from || number(text, from, to) > u32::MAX {
        1
    } else {
        number(text, from, to)
    }
}

/// The terms of the text from `from` on. A term ends at the next `x`, or
/// after the `^` and the digits that follow that `x`; without an `x` the rest
/// of the text is one term of power zero.
pub open spec fn terms_from(text: Seq<u8>, from: int) -> Seq<Term>
    decreases text.len() - from,
{
    if from < 0 || from >= text.len() {
        Seq::empty()
    } else {
        let stop = first_at(text, 0x78, from, text.len() as int);
        let coefficient = reading(text, from, stop);
        if stop >= text.len() || stop < from {
            seq![Term { coefficient, exponent: 0 }]
        } else if stop + 1 < text.len() && text[stop + 1] == 0x5e {
            let end = run_end(text, stop + 2, text.len() as int);
            let term = Term {
                coefficient,
                exponent: exponent_value(text, stop + 2, end) as u32,
            };
            if from < end <= text.len() {
                seq![term] + terms_from(text, end)
            } else {
                seq![term]
            }
        } else {
            seq![Term { coefficient, exponent: 1 }] + terms_from(text, stop + 1)
        }
    }
}

/// The terms of a formula: those of the text after `y=`, which holds one
/// term at least.
pub open spec fn formula_terms(text: Seq<u8>) -> Option<Seq<Term>> {
    if text.len() > 2 && text[0] == 0x79 && text[1] == 0x3d {
        Some(terms_from(text, 2))
    } else {
        None
    }
}

/// Whether every coefficient of the terms can be held.
pub open spec fn held(terms: Seq<Term>) -> bool {
    forall|index: int| 0 <= index < terms.len() ==> !((#[trigger] terms[index]).coefficient
        is Beyond)
}

/// The highest power among the terms.
pub open spec fn degree(terms: Seq<Term>) -> nat
    decreases terms.len(),
{
    if terms.len() == 0 {
        0
    } else if terms.last().exponent >= degree(terms.drop_last()) {
        terms.last().exponent as nat
    } else {
        degree(terms.drop_last())
    }
}

/// The coefficient of a power: that of the last term of that power, or zero
/// if there is no such term.
pub open spec fn coefficient_of(terms: Seq<Term>, exponent: int) -> i64
    decreases terms.len(),
{
    if terms.len() == 0 {
        0
    } else if terms.last().exponent == exponent {
        terms.last().coefficient.value()
    } else {
        coefficient_of(terms.drop_last(), exponent)
    }
}

/// The coefficients of all powers from the highest down to zero.
pub open spec fn coefficients(terms: Seq<Term>) -> Seq<i64> {
    Seq::new(degree(terms) + 1, |index: int| coefficient_of(terms, degree(terms) - index))
}

/// The coefficients of a formula, from the highest power down. There are
/// none if the text does not begin with `y=` or holds nothing after it, if
/// a coefficient cannot be held, or if the powers are more than a list can
/// count.
pub open spec fn formula_coefficients(text: Seq<u8>) -> Option<Seq<i64>> {
    match formula_terms(text) {
        Some(terms) => if held(terms) && degree(terms) < usize::MAX {
            Some(coefficients(terms))
        } else {
            None
        },
        None => None,
    }
}

/// No number that is held is larger than this.
const LIMIT: u128 = 0x8000_0000_0000_0000;

/// An exponent counts as this if it is larger.
const EXPONENT_CAP: u128 = 1_000_000_000_000_000_000_000_000_000_000;

/// The powers of ten grow with the exponent, and the eighteenth and the
/// nineteenth are what they are.
proof fn lemma_ten_power(smaller: nat, larger: nat)
    requires
        smaller <= larger,
    ensures
        1 <= ten_power(smaller) <= ten_power(larger),
        ten_power(18) == 1_000_000_000_000_000_000,
        ten_power(19) == 10_000_000_000_000_000_000,
    decreases larger,
{
    reveal_with_fuel(ten_power, 20);
    if smaller < larger {
        lemma_ten_power(smaller, (larger - 1) as nat);
    } else if larger > 0 {
        lemma_ten_power((smaller - 1) as nat, (larger - 1) as nat);
    }
}

/// Digits that all count one at least come to the number they stand for,
/// times ten to the power of the weight of the last.
proof fn lemma_sum_is_number(text: Seq<u8>, from: int, to: int, weight: int)
    requires
        weight >= 0,
    ensures
        places_sum(text, from, to, weight) == number(text, from, to) * ten_power(weight as nat),
    decreases to - from,
{
    if to > from {
        lemma_sum_is_number(text, from, to - 1, weight + 1);
        let before = number(text, from, to - 1);
        let digit = digit_of(text[to - 1]);
        let power = ten_power(weight as nat);
        assert(ten_power((weight + 1) as nat) == 10 * power);
        assert(before * (10 * power) + digit * power == (10 * before + digit) * power)
            by (nonlinear_arith);
    } else {
        assert(0 * ten_power(weight as nat) == 0) by (nonlinear_arith);
    }
}

/// The last digits, as many as count less than one, can be left out.
proof fn lemma_sum_dropped(text: Seq<u8>, from: int, to: int, weight: int, dropped: int)
    requires
        0 <= dropped <= to - from,
        dropped == 0 || dropped <= -weight,
    ensures
        places_sum(text, from, to, weight) == places_sum(
            text,
            from,
            to - dropped,
            weight + dropped,
        ),
    decreases dropped,
{
    if dropped > 0 {
        lemma_sum_dropped(text, from, to - 1, weight + 1, dropped - 1);
    }
}

/// Finds the end of the run of digits that starts at `from`.
fn skip_run(text: &[u8], from: usize, to: usize) -> (end: usize)
    requires
        from <= to <= text.len(),
    ensures
        end == run_end(text@, from as int, to as int),
        from <= end <= to,
        all_digits(text@, from as int, end as int),
{
    let mut end: usize = from;
    while end < to && 0x30 <= text[end] && text[end] <= 0x39
        invariant
            from <= end <= to <= text.len(),
            run_end(text@, from as int, to as int) == run_end(text@, end as int, to as int),
            all_digits(text@, from as int, end as int),
        decreases to - end,
    {
        end = end + 1;
    }
    end
}

/// Finds the place after a sign at `from`.
fn skip_sign(text: &[u8], from: usize, to: usize) -> (end: usize)
    requires
        from <= to <= text.len(),
    ensures
        end == sign_end(text@, from as int, to as int),
        from <= end <= to,
{
    if from < to && (text[from] == 0x2d || text[from] == 0x2b) {
        from + 1
    } else {
        from
    }
}

/// Finds the first `byte` from `from` up to `to`.
fn find(text: &[u8], byte: u8, from: usize, to: usize) -> (place: usize)
    requires
        from <= to <= text.len(),
    ensures
        place == first_at(text@, byte, from as int, to as int),
        from <= place <= to,
        place < to ==> text@[place as int] == byte,
{
    let mut place: usize = from;
    while place < to && text[place] != byte
        invariant
            from <= place <= to <= text.len(),
            first_at(text@, byte, from as int, to as int) == first_at(
                text@,
                byte,
                place as int,
                to as int,
            ),
        decreases to - place,
    {
        place = place + 1;
    }
    place
}

/// Turns a letter into lower case.
fn to_lower(byte: u8) -> (small: u8)
    ensures
        small == lower(byte),
{
    if 0x41 <= byte && byte <= 0x5a {
        byte + 0x20
    } else {
        byte
    }
}

/// Tells whether the bytes from `from` up to `to` are one of the words for
/// what is infinite or no number.
fn is_word(text: &[u8], from: usize, to: usize) -> (word: bool)
    requires
        from <= to <= text.len(),
    ensures
        word == is_special(text@, from as int, to as int),
{
    let ghost inf = seq![0x69u8, 0x6e, 0x66];
    let ghost infinity = seq![0x69u8, 0x6e, 0x66, 0x69, 0x6e, 0x69, 0x74, 0x79];
    let ghost nan = seq![0x6eu8, 0x61, 0x6e];
    if to - from == 3 {
        let first: u8 = to_lower(text[from]);
        let second: u8 = to_lower(text[from + 1]);
        let third: u8 = to_lower(text[from + 2]);
        assert(text@[from + 0] == text@[from as int]);
        let word = (first == 0x69 && second == 0x6e && third == 0x66) || (first == 0x6e && second
            == 0x61 && third == 0x6e);
        assert(spells(text@, from as int, to as int, inf) <==> first == 0x69 && second == 0x6e
            && third == 0x66) by {
            if spells(text@, from as int, to as int, inf) {
                assert(lower(text@[from + 0]) == inf[0]);
                assert(lower(text@[from + 1]) == inf[1]);
                assert(lower(text@[from + 2]) == inf[2]);
            }
        }
        assert(spells(text@, from as int, to as int, nan) <==> first == 0x6e && second == 0x61
            && third == 0x6e) by {
            if spells(text@, from as int, to as int, nan) {
                assert(lower(text@[from + 0]) == nan[0]);
                assert(lower(text@[from + 1]) == nan[1]);
                assert(lower(text@[from + 2]) == nan[2]);
            }
        }
        word
    } else if to - from == 8 {
        assert(text@[from + 0] == text@[from as int]);
        let word = to_lower(text[from]) == 0x69 && to_lower(text[from + 1]) == 0x6e && to_lower(
            text[from + 2],
        ) == 0x66 && to_lower(text[from + 3]) == 0x69 && to_lower(text[from + 4]) == 0x6e
            && to_lower(text[from + 5]) == 0x69 && to_lower(text[from + 6]) == 0x74 && to_lower(
            text[from + 7],
        ) == 0x79;
        assert(spells(text@, from as int, to as int, infinity) <==> word) by {
            if spells(text@, from as int, to as int, infinity) {
                assert(lower(text@[from + 0]) == infinity[0]);
                assert(lower(text@[from + 1]) == infinity[1]);
                assert(lower(text@[from + 2]) == infinity[2]);
                assert(lower(text@[from + 3]) == infinity[3]);
                assert(lower(text@[from + 4]) == infinity[4]);
                assert(lower(text@[from + 5]) == infinity[5]);
                assert(lower(text@[from + 6]) == infinity[6]);
                assert(lower(text@[from + 7]) == infinity[7]);
            }
        }
        word
    } else {
        false
    }
}

/// Reads the digits from `from` up to `to` as a number, or as `cap` if the
/// number is larger.
fn read_capped(text: &[u8], from: usize, to: usize, cap: u128) -> (read: u128)
    requires
        from <= to <= text.len(),
        all_digits(text@, from as int, to as int),
        cap <= EXPONENT_CAP,
    ensures
        read == if number(text@, from as int, to as int) <= cap {
            number(text@, from as int, to as int)
        } else {
            cap as nat
        },
{
    let mut value: u128 = 0;
    let mut index: usize = from;
    while index < to
        invariant
            from <= index <= to <= text.len(),
            all_digits(text@, from as int, to as int),
            cap <= EXPONENT_CAP,
            value == if number(text@, from as int, index as int) <= cap {
                number(text@, from as int, index as int)
            } else {
                cap as nat
            },
        decreases to - index,
    {
        let byte: u8 = text[index];
        assert(is_digit(text@[index as int]));
        let next: u128 = 10 * value + (byte - 0x30) as u128;
        value = if next > cap {
            cap
        } else {
            next
        };
        index = index + 1;
    }
    value
}

/// Ten to the power of `exponent`, for exponents up to eighteen.
fn power_of_ten(exponent: u32) -> (power: u128)
    requires
        exponent <= 18,
    ensures
        power == ten_power(exponent as nat),
        1 <= power <= 1_000_000_000_000_000_000,
{
    let mut power: u128 = 1;
    let mut done: u32 = 0;
    proof {
        lemma_ten_power(0, 18);
    }
    while done < exponent
        invariant
            done <= exponent <= 18,
            power == ten_power(done as nat),
            ten_power(18) == 1_000_000_000_000_000_000,
        decreases exponent - done,
    {
        proof {
            lemma_ten_power((done + 1) as nat, 18);
        }
        power = power * 10;
        done = done + 1;
    }
    proof {
        lemma_ten_power(done as nat, 18);
    }
    power
}

/// Adds up the digits from `from` up to `to`, the last of which counts ten to
/// the power of `weight`. There is no sum if it is beyond the limit.
fn range_value(text: &[u8], from: usize, to: usize, weight: i128) -> (sum: Option<u128>)
    requires
        from <= to <= text.len(),
        all_digits(text@, from as int, to as int),
        -2 * EXPONENT_CAP <= weight <= 2 * EXPONENT_CAP,
    ensures
        match sum {
            Some(value) => value == places_sum(text@, from as int, to as int, weight as int)
                && value <= LIMIT,
            None => places_sum(text@, from as int, to as int, weight as int) > LIMIT,
        },
{
    let length: i128 = (to - from) as i128;
    let dropped: i128 = if weight >= 0 {
        0
    } else if -weight <= length {
        -weight
    } else {
        length
    };
    let end: usize = to - dropped as usize;
    let last: i128 = weight + dropped;
    proof {
        lemma_sum_dropped(text@, from as int, to as int, weight as int, dropped as int);
    }
    if last < 0 {
        return Some(0);
    }
    let read: u128 = read_capped(text, from, end, LIMIT + 1);
    proof {
        lemma_sum_is_number(text@, from as int, end as int, last as int);
        lemma_ten_power(0, last as nat);
    }
    let ghost digits = number(text@, from as int, end as int);
    let ghost power = ten_power(last as nat);
    if read == 0 {
        assert(digits * power == 0) by (nonlinear_arith)
            requires
                digits == 0,
        ;
        return Some(0);
    }
    assert(digits * power >= digits) by (nonlinear_arith)
        requires
            power >= 1,
    ;
    if read > LIMIT {
        return None;
    }
    if last >= 19 {
        proof {
            lemma_ten_power(19, last as nat);
        }
        assert(digits * power >= power) by (nonlinear_arith)
            requires
                digits >= 1,
        ;
        return None;
    }
    let factor: u128 = power_of_ten(last as u32);
    assert(read * factor <= 0x8000_0000_0000_0000 * 1_000_000_000_000_000_000)
        by (nonlinear_arith)
        requires
            read <= 0x8000_0000_0000_0000,
            factor <= 1_000_000_000_000_000_000,
    ;
    let value: u128 = read * factor;
    if value > LIMIT {
        None
    } else {
        Some(value)
    }
}

/// Reads the bytes from `from` up to `to` as a coefficient.
pub fn read_decimal(text: &[u8], from: usize, to: usize) -> (read: Reading)
    requires
        from <= to <= text.len(),
    ensures
        read == reading(text@, from as int, to as int),
{
    let negative = from < to && text[from] == 0x2d;
    let start: usize = skip_sign(text, from, to);
    if is_word(text, start, to) {
        return Reading::Beyond;
    }
    let whole_end: usize = skip_run(text, start, to);
    let places_start: usize = if whole_end < to && text[whole_end] == 0x2e {
        whole_end + 1
    } else {
        whole_end
    };
    let places_end: usize = skip_run(text, places_start, to);
    if (whole_end - start) + (places_end - places_start) < 1 {
        return Reading::Nothing;
    }
    let places: i128 = (places_end - places_start) as i128;
    let mut shift: i128 = 6;
    if places_end < to && to_lower(text[places_end]) == 0x65 {
        let first: usize = skip_sign(text, places_end + 1, to);
        if first >= to {
            return Reading::Nothing;
        }
        let last: usize = skip_run(text, first, to);
        if last != to {
            return Reading::Nothing;
        }
        let down = text[places_end + 1] == 0x2d;
        let size: u128 = read_capped(text, first, to, EXPONENT_CAP);
        if size >= EXPONENT_CAP {
            let ghost exact = exponent(text@, from as int, to as int);
            if down {
                proof {
                    lemma_sum_dropped(
                        text@,
                        start as int,
                        whole_end as int,
                        exact + 6,
                        whole_end - start,
                    );
                    lemma_sum_dropped(
                        text@,
                        places_start as int,
                        places_end as int,
                        exact + 6 - places,
                        places_end - places_start,
                    );
                }
                return Reading::Number(0);
            }
            let whole: u128 = read_capped(text, start, whole_end, 1);
            let part: u128 = read_capped(text, places_start, places_end, 1);
            proof {
                lemma_sum_is_number(text@, start as int, whole_end as int, exact + 6);
                lemma_sum_is_number(
                    text@,
                    places_start as int,
                    places_end as int,
                    exact + 6 - places,
                );
                lemma_ten_power(19, (exact + 6) as nat);
                lemma_ten_power(19, (exact + 6 - places) as nat);
                let whole_digits = number(text@, start as int, whole_end as int);
                let part_digits = number(text@, places_start as int, places_end as int);
                let whole_power = ten_power((exact + 6) as nat);
                let part_power = ten_power((exact + 6 - places) as nat);
                assert(whole_digits == 0 ==> whole_digits * whole_power == 0)
                    by (nonlinear_arith);
                assert(part_digits == 0 ==> part_digits * part_power == 0) by (nonlinear_arith);
                assert(whole_digits >= 1 ==> whole_digits * whole_power >= whole_power)
                    by (nonlinear_arith);
                assert(part_digits >= 1 ==> part_digits * part_power >= part_power)
                    by (nonlinear_arith);
            }
            if whole == 0 && part == 0 {
                return Reading::Number(0);
            } else {
                return Reading::Beyond;
            }
        }
        shift = if down {
            6 - size as i128
        } else {
            6 + size as i128
        };
    } else if places_end != to {
        return Reading::Nothing;
    }
    let whole = range_value(text, start, whole_end, shift);
    let part = range_value(text, places_start, places_end, shift - places);
    match (whole, part) {
        (Some(whole), Some(part)) => {
            let size: u128 = whole + part;
            if negative {
                if size <= LIMIT {
                    Reading::Number((-(size as i128)) as i64)
                } else {
                    Reading::Beyond
                }
            } else if size < LIMIT {
                Reading::Number(size as i64)
            } else {
                Reading::Beyond
            }
        },
        _ => Reading::Beyond,
    }
}

/// Reads the terms of a text from `from` on.
fn read_terms(text: &[u8], from: usize) -> (terms: Vec<Term>)
    requires
        from <= text.len(),
    ensures
        terms@ == terms_from(text@, from as int),
{
    let mut terms: Vec<Term> = Vec::new();
    let mut position: usize = from;
    assert(terms@ + terms_from(text@, position as int) =~= terms_from(text@, from as int));
    while position < text.len()
        invariant
            from <= position <= text.len(),
            terms@ + terms_from(text@, position as int) == terms_from(text@, from as int),
        decreases text.len() - position,
    {
        let ghost before = terms@;
        let ghost rest = terms_from(text@, position as int);
        let stop: usize = find(text, 0x78, position, text.len());
        let coefficient = read_decimal(text, position, stop);
        if stop >= text.len() {
            terms.push(Term { coefficient, exponent: 0 });
            assert(rest =~= seq![Term { coefficient, exponent: 0 }]);
            position = text.len();
            assert(terms_from(text@, position as int) =~= Seq::<Term>::empty());
        } else if stop + 1 < text.len() && text[stop + 1] == 0x5e {
            let end: usize = skip_run(text, stop + 2, text.len());
            let value: u128 = read_capped(text, stop + 2, end, 0x1_0000_0000);
            let exponent: u32 = if end <= stop + 2 || value > 0xffff_ffff {
                1
            } else {
                value as u32
            };
            let term = Term { coefficient, exponent };
            terms.push(term);
            assert(rest =~= seq![term] + terms_from(text@, end as int));
            position = end;
        } else {
            let term = Term { coefficient, exponent: 1 };
            terms.push(term);
            assert(rest =~= seq![term] + terms_from(text@, stop + 1));
            position = stop + 1;
        }
        assert(terms@ + terms_from(text@, position as int) =~= before + rest);
    }
    assert(terms_from(text@, position as int) =~= Seq::<Term>::empty());
    assert(terms@ + Seq::<Term>::empty() =~= terms@);
    terms
}

/// Finds the highest power among the terms.
fn highest_power(terms: &Vec<Term>) -> (highest: u32)
    ensures
        highest == degree(terms@),
{
    let mut highest: u32 = 0;
    let mut index: usize = 0;
    assert(terms@.take(0) =~= Seq::<Term>::empty());
    while index < terms.len()
        invariant
            index <= terms.len(),
            highest == degree(terms@.take(index as int)),
        decreases terms.len() - index,
    {
        assert(terms@.take(index + 1).drop_last() =~= terms@.take(index as int));
        if terms[index].exponent >= highest {
            highest = terms[index].exponent;
        }
        index = index + 1;
    }
    assert(terms@.take(index as int) =~= terms@);
    highest
}

/// Lays the coefficients of the terms out from the highest power down to
/// zero. The terms are entered into a map from power to coefficient, one
/// after the other, so that the last term of a power is the one that stays.
fn arrange(terms: &Vec<Term>) -> (arranged: Option<Vec<i64>>)
    ensures
        arranged.is_some() <==> held(terms@) && degree(terms@) < usize::MAX,
        arranged matches Some(list) ==> list@ == coefficients(terms@),
{
    let mut by_power: HashMap<u32, i64> = HashMap::new();
    let mut index: usize = 0;
    assert(terms@.take(0) =~= Seq::<Term>::empty());
    while index < terms.len()
        invariant
            index <= terms.len(),
            forall|earlier: int|
                0 <= earlier < index ==> !((#[trigger] terms@[earlier]).coefficient is Beyond),
            forall|power: u32| #[trigger]
                by_power@.contains_key(power) ==> by_power@[power] == coefficient_of(
                    terms@.take(index as int),
                    power as int,
                ),
            forall|power: u32|
                !(#[trigger] by_power@.contains_key(power)) ==> coefficient_of(
                    terms@.take(index as int),
                    power as int,
                ) == 0,
        decreases terms.len() - index,
    {
        assert(terms@.take(index + 1).drop_last() =~= terms@.take(index as int));
        assert(terms@.take(index + 1).last() == terms@[index as int]);
        let term = terms[index];
        let value: i64 = match term.coefficient {
            Reading::Number(value) => value,
            Reading::Nothing => UNIT,
            Reading::Beyond => {
                return None;
            },
        };
        by_power.insert(term.exponent, value);
        index = index + 1;
    }
    assert(terms@.take(index as int) =~= terms@);
    let highest: u32 = highest_power(terms);
    if highest as u64 >= usize::MAX as u64 {
        return None;
    }
    let mut list: Vec<i64> = Vec::new();
    let mut place: usize = 0;
    while place <= highest as usize
        invariant
            highest == degree(terms@),
            highest < usize::MAX,
            place <= highest + 1,
            list@.len() == place,
            forall|earlier: int|
                0 <= earlier < place ==> #[trigger] list@[earlier] == coefficient_of(
                    terms@,
                    highest - earlier,
                ),
            forall|power: u32| #[trigger]
                by_power@.contains_key(power) ==> by_power@[power] == coefficient_of(
                    terms@,
                    power as int,
                ),
            forall|power: u32|
                !(#[trigger] by_power@.contains_key(power)) ==> coefficient_of(
                    terms@,
                    power as int,
                ) == 0,
        decreases highest + 1 - place,
    {
        let power: u32 = highest - place as u32;
        let coefficient: i64 = match by_power.get(&power) {
            Some(coefficient) => *coefficient,
            None => 0,
        };
        list.push(coefficient);
        place = place + 1;
    }
    assert(list@ =~= coefficients(terms@));
    Some(list)
}

/// Reads a formula from its bytes.
fn read_formula(text: &[u8]) -> (list: Option<Vec<i64>>)
    ensures
        list.is_some() <==> formula_coefficients(text@).is_some(),
        list matches Some(read) ==> Some(read@) == formula_coefficients(text@),
{
    if text.len() <= 2 || text[0] != 0x79 || text[1] != 0x3d {
        return None;
    }
    let read = read_terms(text, 2);
    arrange(&read)
}

/// Reads a formula that holds no spaces, and gives its coefficients from the
/// highest power down.
pub fn terms(input: &str) -> (list: Option<Vec<i64>>)
    ensures
        list.is_some() <==> formula_coefficients(input.spec_bytes()).is_some(),
        list matches Some(read) ==> Some(read@) == formula_coefficients(input.spec_bytes()),
{
    read_formula(input.as_bytes())
}

/// Reads a formula, spaces and all, and gives its coefficients from the
/// highest power down.
pub fn poly(input: &str) -> (list: Option<Vec<i64>>)
    ensures
        list.is_some() <==> formula_coefficients(without_spaces(input.spec_bytes())).is_some(),
        list matches Some(read) ==> Some(read@) == formula_coefficients(
            without_spaces(input.spec_bytes()),
        ),
{
    let stripped = strip_spaces(input.as_bytes());
    read_formula(stripped.as_slice())
}

/// Removes the spaces from a text.
pub fn strip_spaces(text: &[u8]) -> (stripped: Vec<u8>)
    ensures
        stripped@ == without_spaces(text@),
{
    let mut stripped: Vec<u8> = Vec::new();
    let mut index: usize = 0;
    assert(text@.take(0) =~= Seq::<u8>::empty());
    while index < text.len()
        invariant
            index <= text.len(),
            stripped@ == without_spaces(text@.take(index as int)),
        decreases text.len() - index,
    {
        assert(text@.take(index + 1).drop_last() =~= text@.take(index as int));
        if text[index] != 0x20 {
            stripped.push(text[index]);
        }
        index = index + 1;
    }
    assert(text@.take(index as int) =~= text@);
    stripped
}

} // verus!
