//! Colours: the palette of the game, and colours written as six hexadecimal
//! digits.

use vstd::prelude::*;
use vstd::string::StringSliceAdditionalSpecFns;

verus! {

/// An opaque colour, by its red, green and blue parts.
#[derive(Debug, Clone, Copy, PartialEq, Eq, Structural)]
pub struct Rgb {
    pub red: u8,
    pub green: u8,
    pub blue: u8,
}

/// The colours of the palette.
#[derive(Debug, Clone, Copy, PartialEq, Eq, Structural)]
pub enum Colour {
    Birch,
    Oak,
    Pine,
    Darkbark,
    Blood,
    Fabric,
    Candle,
    Glow,
    Flora,
    Moss,
    Mold,
    Iron,
    Aluminiu,
    White,
    Ion,
    Archaeon,
}

/// The value of a hexadecimal digit, in either case, given as an ASCII byte.
pub open spec fn digit_value(byte: u8) -> Option<u8> {
    if 0x30 <= byte <= 0x39 {
        Some((byte - 0x30) as u8)
    } else if 0x61 <= byte <= 0x66 {
        Some((byte - 0x61 + 10) as u8)
    } else if 0x41 <= byte <= 0x46 {
        Some((byte - 0x41 + 10) as u8)
    } else {
        None
    }
}

/// The number that a run of hexadecimal digits stands for, the first digit
/// counting most. There is none if a byte of the run is no digit.
pub open spec fn digits_value(digits: Seq<u8>) -> Option<nat>
    decreases digits.len(),
{
    if digits.len() == 0 {
        Some(0)
    } else {
        match (digits_value(digits.drop_last()), digit_value(digits.last())) {
            (Some(value), Some(digit)) => Some(16 * value + digit as nat),
            _ => None,
        }
    }
}

/// The number that a text stands for: one hexadecimal digit at least, with
/// a plus sign before them or without.
pub open spec fn hex_number(text: Seq<u8>) -> Option<nat> {
    if text.len() == 0 {
        None
    } else if text[0] == 0x2b {
        if text.len() == 1 {
            None
        } else {
            digits_value(text.skip(1))
        }
    } else {
        digits_value(text)
    }
}

/// The colour that a text of six bytes stands for: the number it holds,
/// split into three bytes from the highest down, as red, green and blue.
/// A text of any other length is no colour.
pub open spec fn colour_of(text: Seq<u8>) -> Option<Rgb> {
    if text.len() != 6 {
        None
    } else {
        match hex_number(text) {
            Some(number) => Some(
                Rgb {
                    red: (number / 0x1_0000 % 0x100) as u8,
                    green: (number / 0x100 % 0x100) as u8,
                    blue: (number % 0x100) as u8,
                },
            ),
            None => None,
        }
    }
}

/// Reads a hexadecimal digit.
fn read_digit(byte: u8) -> (digit: Option<u8>)
    ensures
        digit == digit_value(byte),
        digit matches Some(value) ==> value < 16,
{
    if 0x30 <= byte && byte <= 0x39 {
        Some(byte - 0x30)
    } else if 0x61 <= byte && byte <= 0x66 {
        Some(byte - 0x61 + 10)
    } else if 0x41 <= byte && byte <= 0x46 {
        Some(byte - 0x41 + 10)
    } else {
        None
    }
}

/// Reads a colour written as six hexadecimal digits, such as `e4a672`,
/// without a `#` before them.
pub fn hex(input: &str) -> (colour: Option<Rgb>)
    ensures
        colour == colour_of(input.spec_bytes()),
{
    let bytes = input.as_bytes();
    if bytes.len() != 6 {
        return None;
    }
    let start: usize = if bytes[0] == 0x2b {
        1
    } else {
        0
    };
    let ghost digits = bytes@.skip(start as int);
    let mut number: u32 = 0;
    let mut index: usize = start;
    assert(digits.take(0) =~= Seq::<u8>::empty());
    while index < 6
        invariant
            bytes@ == input.spec_bytes(),
            bytes@.len() == 6,
            start <= index <= 6,
            start <= 1,
            start == 1 <==> bytes@[0] == 0x2b,
            digits == bytes@.skip(start as int),
            digits_value(digits.take(index - start)) == Some(number as nat),
            number < sixteen_to(index - start),
        decreases 6 - index,
    {
        let ghost read = digits.take(index - start);
        let ghost longer = digits.take(index - start + 1);
        assert(longer.drop_last() =~= read);
        assert(longer.last() == bytes@[index as int]);
        match read_digit(bytes[index]) {
            Some(digit) => {
                number = 16 * number + digit as u32;
            },
            None => {
                proof {
                    lemma_bad_digit_spoils(digits, index - start);
                    assert(bytes@.skip(0) =~= bytes@);
                }
                return None;
            },
        }
        index = index + 1;
    }
    assert(digits.take(index - start) =~= digits);
    assert(bytes@.skip(0) =~= bytes@);
    let red: u8 = (number / 0x1_0000 % 0x100) as u8;
    let green: u8 = (number / 0x100 % 0x100) as u8;
    let blue: u8 = (number % 0x100) as u8;
    Some(Rgb { red, green, blue })
}

/// Sixteen to the power of `count`, for up to six digits.
spec fn sixteen_to(count: int) -> int {
    if count <= 0 {
        1
    } else if count == 1 {
        0x10
    } else if count == 2 {
        0x100
    } else if count == 3 {
        0x1000
    } else if count == 4 {
        0x1_0000
    } else if count == 5 {
        0x10_0000
    } else {
        0x100_0000
    }
}

/// A run of digits with a byte that is no digit has no value, however it
/// goes on.
proof fn lemma_bad_digit_spoils(digits: Seq<u8>, bad: int)
    requires
        0 <= bad < digits.len(),
        digit_value(digits[bad]).is_none(),
    ensures
        digits_value(digits).is_none(),
    decreases digits.len(),
{
    if bad < digits.len() - 1 {
        lemma_bad_digit_spoils(digits.drop_last(), bad);
    }
}

impl Colour {
    /// The colour of the palette entry.
    pub open spec fn rgb(self) -> Rgb {
        match self {
            Colour::Birch => Rgb { red: 0xe4, green: 0xa6, blue: 0x72 },
            Colour::Oak => Rgb { red: 0xb8, green: 0x6f, blue: 0x50 },
            Colour::Pine => Rgb { red: 0x74, green: 0x3f, blue: 0x39 },
            Colour::Darkbark => Rgb { red: 0x3f, green: 0x28, blue: 0x32 },
            Colour::Blood => Rgb { red: 0x9e, green: 0x28, blue: 0x35 },
            Colour::Fabric => Rgb { red: 0xe5, green: 0x3b, blue: 0x44 },
            Colour::Candle => Rgb { red: 0xfb, green: 0x92, blue: 0x2b },
            Colour::Glow => Rgb { red: 0xff, green: 0xe7, blue: 0x62 },
            Colour::Flora => Rgb { red: 0x63, green: 0xc6, blue: 0x4d },
            Colour::Moss => Rgb { red: 0x32, green: 0x73, blue: 0x45 },
            Colour::Mold => Rgb { red: 0x19, green: 0x3d, blue: 0x3f },
            Colour::Iron => Rgb { red: 0x4f, green: 0x67, blue: 0x81 },
            Colour::Aluminiu => Rgb { red: 0xaf, green: 0xbf, blue: 0xd2 },
            Colour::White => Rgb { red: 0xff, green: 0xff, blue: 0xff },
            Colour::Ion => Rgb { red: 0x2c, green: 0xe8, blue: 0xf4 },
            Colour::Archaeon => Rgb { red: 0x04, green: 0x84, blue: 0xd1 },
        }
    }

    /// The colour of the palette entry.
    pub fn colour(self) -> (rgb: Rgb)
        ensures
            rgb == self.rgb(),
    {
        match self {
            Colour::Birch => Rgb { red: 0xe4, green: 0xa6, blue: 0x72 },
            Colour::Oak => Rgb { red: 0xb8, green: 0x6f, blue: 0x50 },
            Colour::Pine => Rgb { red: 0x74, green: 0x3f, blue: 0x39 },
            Colour::Darkbark => Rgb { red: 0x3f, green: 0x28, blue: 0x32 },
            Colour::Blood => Rgb { red: 0x9e, green: 0x28, blue: 0x35 },
            Colour::Fabric => Rgb { red: 0xe5, green: 0x3b, blue: 0x44 },
            Colour::Candle => Rgb { red: 0xfb, green: 0x92, blue: 0x2b },
            Colour::Glow => Rgb { red: 0xff, green: 0xe7, blue: 0x62 },
            Colour::Flora => Rgb { red: 0x63, green: 0xc6, blue: 0x4d },
            Colour::Moss => Rgb { red: 0x32, green: 0x73, blue: 0x45 },
            Colour::Mold => Rgb { red: 0x19, green: 0x3d, blue: 0x3f },
            Colour::Iron => Rgb { red: 0x4f, green: 0x67, blue: 0x81 },
            Colour::Aluminiu => Rgb { red: 0xaf, green: 0xbf, blue: 0xd2 },
            Colour::White => Rgb { red: 0xff, green: 0xff, blue: 0xff },
            Colour::Ion => Rgb { red: 0x2c, green: 0xe8, blue: 0xf4 },
            Colour::Archaeon => Rgb { red: 0x04, green: 0x84, blue: 0xd1 },
        }
    }
}

} // verus!
