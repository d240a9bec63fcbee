//! Names of the pictures of an animation: a common name followed by the
//! number of the picture.

use vstd::prelude::*;

verus! {

/// The character of a decimal digit.
pub open spec fn digit_char(digit: nat) -> char {
    (0x30 + digit) as char
}

/// A number in decimal digits, without sign or padding.
pub open spec fn decimal(number: nat) -> Seq<char>
    decreases number,
{
    if number < 10 {
        seq![digit_char(number)]
    } else {
        decimal(number / 10).push(digit_char(number % 10))
    }
}

/// The name of picture `number` of the animation `name`.
pub open spec fn picture_name(name: Seq<char>, number: nat) -> Seq<char> {
    name + decimal(number)
}

/// Writes the name of a picture.
///
/// Calls `format!` of the standard library with the `Display` impls of
/// `str` and `usize`: the text is the name as it stands, followed by the
/// number in decimal digits without sign or padding.
#[verifier::external_body]
fn numbered(name: &str, number: usize) -> (text: String)
    ensures
        text@ == picture_name(name@, number as nat),
{
    format!("{name}{number}")
}

/// The names of the pictures of an animation, from picture `start` to
/// picture `end_inclusive`, in order. There are none if the first number is
/// above the last.
pub fn include_textures(name: &str, start: usize, end_inclusive: usize) -> (names: Vec<String>)
    ensures
        start > end_inclusive ==> names@.len() == 0,
        start <= end_inclusive ==> names@.len() == end_inclusive - start + 1,
        forall|index: int|
            0 <= index < names@.len() ==> (#[trigger] names@[index])@ == picture_name(
                name@,
                (start + index) as nat,
            ),
{
    let mut names: Vec<String> = Vec::new();
    if start > end_inclusive {
        return names;
    }
    let mut number: usize = start;
    loop
        invariant_except_break
            start <= number <= end_inclusive,
            names@.len() == number - start,
        invariant
            start <= end_inclusive,
            forall|index: int|
                0 <= index < names@.len() ==> (#[trigger] names@[index])@ == picture_name(
                    name@,
                    (start + index) as nat,
                ),
        ensures
            names@.len() == end_inclusive - start + 1,
        decreases end_inclusive - number,
    {
        names.push(numbered(name, number));
        if number == end_inclusive {
            break ;
        }
        number = number + 1;
    }
    names
}

} // verus!
