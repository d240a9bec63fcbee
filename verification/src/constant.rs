//! Named polynomials: a formula read under a name, with a line of
//! documentation that writes the polynomial out and links to a plot of it.

use crate::fixed::UNIT;
use crate::formula::{formula_coefficients, poly, without_spaces};
use crate::textures::{decimal, digit_char};
use vstd::prelude::*;
use vstd::string::{StringExecFns, StringSliceAdditionalSpecFns};
use vstd::utf8::encode_utf8;

verus! {

/// A polynomial under a name.
#[derive(Debug, Clone, PartialEq, Eq)]
pub struct PolyConst {
    pub name: String,
    /// The coefficients in millionths, from the highest power down.
    pub coefficients: Vec<i64>,
    /// The polynomial written out, and a link to a plot of it.
    pub doc: String,
}

/// A number below a million in six digits.
pub open spec fn six_places(places: nat) -> Seq<char> {
    seq![
        digit_char(places / 100_000 % 10),
        digit_char(places / 10_000 % 10),
        digit_char(places / 1_000 % 10),
        digit_char(places / 100 % 10),
        digit_char(places / 10 % 10),
        digit_char(places % 10),
    ]
}

/// A number of millionths written with a point: a minus sign if it is below
/// zero, the whole part, the point, and six decimal places.
pub open spec fn written_number(value: int) -> Seq<char> {
    let size = if value < 0 {
        -value
    } else {
        value
    };
    let sign = if value < 0 {
        seq!['-']
    } else {
        Seq::<char>::empty()
    };
    sign + decimal((size / (UNIT as int)) as nat) + seq!['.'] + six_places(
        (size % (UNIT as int)) as nat,
    )
}

/// A term written out: the coefficient, `x^`, and the power.
pub open spec fn written_term(coefficient: int, power: nat) -> Seq<char> {
    written_number(coefficient) + seq!['x', '^'] + decimal(power)
}

/// The first `count` terms of a polynomial written out, from the highest
/// power down, with a plus sign between one term and the next.
pub open spec fn written(coefficients: Seq<i64>, count: nat) -> Seq<char>
    decreases count,
{
    if count == 0 {
        Seq::empty()
    } else {
        let before = written(coefficients, (count - 1) as nat);
        let joint = if count == 1 {
            Seq::<char>::empty()
        } else {
            seq!['+']
        };
        before + joint + written_term(
            coefficients[count - 1] as int,
            (coefficients.len() - count) as nat,
        )
    }
}

/// Whether a byte stands for itself in a link: a letter, a digit, or one of
/// `-`, `.`, `_`, `~`.
pub open spec fn stands_for_itself(byte: u8) -> bool {
    ||| 0x30 <= byte <= 0x39
    ||| 0x41 <= byte <= 0x5a
    ||| 0x61 <= byte <= 0x7a
    ||| byte == 0x2d
    ||| byte == 0x2e
    ||| byte == 0x5f
    ||| byte == 0x7e
}

/// The character of a hexadecimal digit, with capital letters.
pub open spec fn hex_char(digit: nat) -> char {
    if digit < 10 {
        (0x30 + digit) as char
    } else {
        (0x41 + digit - 10) as char
    }
}

/// The bytes of a text as they are written in a link: a byte that stands for
/// itself as it is, any other as `%` and its two hexadecimal digits.
pub open spec fn percent_encoded(bytes: Seq<u8>) -> Seq<char>
    decreases bytes.len(),
{
    if bytes.len() == 0 {
        Seq::empty()
    } else {
        let last = bytes.last();
        let written = if stands_for_itself(last) {
            seq![last as char]
        } else {
            seq!['%', hex_char((last / 16) as nat), hex_char((last % 16) as nat)]
        };
        percent_encoded(bytes.drop_last()) + written
    }
}

/// The line of documentation for a polynomial that is written out as
/// `description` and is written in a link as `encoded`.
pub open spec fn doc_line(description: Seq<char>, encoded: Seq<char>) -> Seq<char> {
    "Polynomial `"@ + description + "`. [View in GeoGebra](https://geogebra.org/classic?command=y="@
        + encoded + ")"@
}

/// Writes a term out.
///
/// Calls `format!` of the standard library with the `Display` impls of `str`,
/// `u64`, `u32` and `usize`: the sign as it stands, the whole part in decimal
/// digits without sign or padding, a point, the places padded with zeros to
/// six digits, `x^`, and the power in decimal digits.
#[verifier::external_body]
fn format_term(sign: &str, whole: u64, places: u32, power: usize) -> (text: String)
    requires
        places < 1_000_000,
    ensures
        text@ == sign@ + decimal(whole as nat) + seq!['.'] + six_places(places as nat) + seq![
            'x',
            '^',
        ] + decimal(power as nat),
{
    format!("{sign}{whole}.{places:06}x^{power}")
}

/// Writes a text as it stands in a link.
///
/// Calls `urlencoding::encode`, which goes through the bytes of the text and
/// writes each letter, digit, `-`, `.`, `_` and `~` as it is, and any other
/// byte as `%` followed by its two hexadecimal digits in capital letters.
#[verifier::external_body]
fn url_encode(text: &str) -> (encoded: String)
    ensures
        encoded@ == percent_encoded(text.spec_bytes()),
{
    urlencoding::encode(text).into_owned()
}

/// Writes a polynomial out, term by term from the highest power down.
pub fn describe(coefficients: &Vec<i64>) -> (text: String)
    ensures
        text@ == written(coefficients@, coefficients@.len()),
{
    let mut text = String::new();
    let mut index: usize = 0;
    proof {
        reveal_strlit("+");
        reveal_strlit("-");
        reveal_strlit("");
    }
    while index < coefficients.len()
        invariant
            index <= coefficients.len(),
            text@ == written(coefficients@, index as nat),
            "+"@ == seq!['+'],
            "-"@ == seq!['-'],
            ""@ == Seq::<char>::empty(),
        decreases coefficients.len() - index,
    {
        let coefficient: i64 = coefficients[index];
        let size: u64 = if coefficient < 0 {
            (-(coefficient as i128)) as u64
        } else {
            coefficient as u64
        };
        let sign = if coefficient < 0 {
            "-"
        } else {
            ""
        };
        let term = format_term(
            sign,
            size / 1_000_000,
            (size % 1_000_000) as u32,
            coefficients.len() - 1 - index,
        );
        assert(term@ =~= written_term(
            coefficient as int,
            (coefficients@.len() - (index + 1)) as nat,
        ));
        if index > 0 {
            text.append("+");
        }
        text.append(term.as_str());
        index = index + 1;
        assert(text@ =~= written(coefficients@, index as nat));
    }
    text
}

/// Writes the line of documentation of a polynomial, given how it is written
/// out and how that is written in a link.
pub fn geogebra_doc(description: &str, encoded: &str) -> (doc: String)
    ensures
        doc@ == doc_line(description@, encoded@),
{
    let mut doc = String::from_str("Polynomial `");
    doc.append(description);
    doc.append("`. [View in GeoGebra](https://geogebra.org/classic?command=y=");
    doc.append(encoded);
    doc.append(")");
    doc
}

/// Reads a formula under a name. The constant holds the name as it is, the
/// coefficients of the formula, and the line of documentation for them;
/// there is none where the formula has no reading.
pub fn poly_consts(name: &str, formula: &str) -> (item: Option<PolyConst>)
    ensures
        item.is_some() <==> formula_coefficients(without_spaces(formula.spec_bytes())).is_some(),
        item matches Some(constant) ==> {
            let description = written(constant.coefficients@, constant.coefficients@.len());
            &&& constant.name@ == name@
            &&& Some(constant.coefficients@) == formula_coefficients(
                without_spaces(formula.spec_bytes()),
            )
            &&& constant.doc@ == doc_line(description, percent_encoded(encode_utf8(description)))
        },
{
    match poly(formula) {
        Some(coefficients) => {
            let description = describe(&coefficients);
            let encoded = url_encode(description.as_str());
            let doc = geogebra_doc(description.as_str(), encoded.as_str());
            Some(PolyConst { name: name.to_owned(), coefficients, doc })
        },
        None => None,
    }
}

} // verus!
