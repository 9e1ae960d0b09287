//! Reading a colour from its hexadecimal notation.

use crate::frame::Rgba;
use vstd::prelude::*;
use vstd::string::StringSliceAdditionalSpecFns;

verus! {

/// Whether the byte is a hexadecimal digit in ASCII, of either case.
pub open spec fn is_hex(b: u8) -> bool {
    (0x30 <= b <= 0x39) || (0x41 <= b <= 0x46) || (0x61 <= b <= 0x66)
}

/// The value of a hexadecimal digit.
pub open spec fn hex_value(b: u8) -> int
    recommends
        is_hex(b),
{
    if b <= 0x39 {
        b - 0x30
    } else if b <= 0x46 {
        b - 0x41 + 10
    } else {
        b - 0x61 + 10
    }
}

/// Whether the bytes are `#` followed by three, four, six or eight
/// hexadecimal digits.
pub open spec fn is_color_notation(bytes: Seq<u8>) -> bool {
    &&& bytes.len() == 4 || bytes.len() == 5 || bytes.len() == 7 || bytes.len() == 9
    &&& bytes[0] == 0x23
    &&& forall|i: int| 1 <= i < bytes.len() ==> is_hex(#[trigger] bytes[i])
}

/// A channel written as one digit: the digit twice.
pub open spec fn short_channel(bytes: Seq<u8>, i: int) -> u8 {
    (17 * hex_value(bytes[i])) as u8
}

/// A channel written as the two digits that start at `i`.
pub open spec fn long_channel(bytes: Seq<u8>, i: int) -> u8 {
    (16 * hex_value(bytes[i]) + hex_value(bytes[i + 1])) as u8
}

/// The colour that the bytes denote: `#RGB`, `#RGBA`, `#RRGGBB` or
/// `#RRGGBBAA`, opaque where no alpha is written. Anything else, the words
/// `auto` and `none` among it, denotes no colour.
pub open spec fn color_of(bytes: Seq<u8>) -> Option<Rgba> {
    if !is_color_notation(bytes) {
        None
    } else if bytes.len() == 4 {
        Some(
            Rgba {
                r: short_channel(bytes, 1),
                g: short_channel(bytes, 2),
                b: short_channel(bytes, 3),
                a: 255,
            },
        )
    } else if bytes.len() == 5 {
        Some(
            Rgba {
                r: short_channel(bytes, 1),
                g: short_channel(bytes, 2),
                b: short_channel(bytes, 3),
                a: short_channel(bytes, 4),
            },
        )
    } else if bytes.len() == 7 {
        Some(
            Rgba {
                r: long_channel(bytes, 1),
                g: long_channel(bytes, 3),
                b: long_channel(bytes, 5),
                a: 255,
            },
        )
    } else {
        Some(
            Rgba {
                r: long_channel(bytes, 1),
                g: long_channel(bytes, 3),
                b: long_channel(bytes, 5),
                a: long_channel(bytes, 7),
            },
        )
    }
}

/// The value of a hexadecimal digit, or `None` for any other byte.
fn hex_digit(b: u8) -> (out: Option<u8>)
    ensures
        out is Some <==> is_hex(b),
        out matches Some(v) ==> v == hex_value(b) && v < 16,
{
    if 0x30 <= b && b <= 0x39 {
        Some(b - 0x30)
    } else if 0x41 <= b && b <= 0x46 {
        Some(b - 0x41 + 10)
    } else if 0x61 <= b && b <= 0x66 {
        Some(b - 0x61 + 10)
    } else {
        None
    }
}

/// Reads a colour from `#RGB`, `#RGBA`, `#RRGGBB` or `#RRGGBBAA`. A digit of
/// the short forms stands for itself twice, and a colour without alpha is
/// opaque. Every other string, `auto` and `none` among them, gives `None`.
pub fn str_to_color(s: &str) -> (out: Option<Rgba>)
    ensures
        out == color_of(s.spec_bytes()),
{
    let bytes = s.as_bytes();
    let n: usize = bytes.len();
    if !(n == 4 || n == 5 || n == 7 || n == 9) {
        return None;
    }
    if bytes[0] != 0x23 {
        return None;
    }
    let mut digits: Vec<u8> = Vec::new();
    let mut i: usize = 1;
    while i < n
        invariant
            1 <= i <= n,
            n == bytes@.len(),
            bytes@ == s.spec_bytes(),
            digits@.len() == i - 1,
            forall|j: int| 1 <= j < i ==> is_hex(#[trigger] bytes@[j]),
            forall|j: int|
                1 <= j < i ==> (#[trigger] digits@[j - 1]) == hex_value(bytes@[j]) && digits@[j
                    - 1] < 16,
        decreases n - i,
    {
        match hex_digit(bytes[i]) {
            None => {
                assert(!is_hex(bytes@[i as int]));
                return None;
            },
            Some(v) => {
                digits.push(v);
            },
        }
        i += 1;
    }
    assert(is_color_notation(bytes@));
    assert(forall|j: int| 0 <= j < n - 1 ==> (#[trigger] digits@[j]) == hex_value(bytes@[j + 1])
        && digits@[j] < 16) by {
        assert forall|j: int| 0 <= j < n - 1 implies (#[trigger] digits@[j]) == hex_value(
            bytes@[j + 1],
        ) && digits@[j] < 16 by {
            assert(digits@[(j + 1) - 1] == hex_value(bytes@[j + 1]));
        }
    }
    if n == 4 {
        Some(Rgba { r: 17 * digits[0], g: 17 * digits[1], b: 17 * digits[2], a: 255 })
    } else if n == 5 {
        Some(Rgba { r: 17 * digits[0], g: 17 * digits[1], b: 17 * digits[2], a: 17 * digits[3] })
    } else if n == 7 {
        Some(
            Rgba {
                r: 16 * digits[0] + digits[1],
                g: 16 * digits[2] + digits[3],
                b: 16 * digits[4] + digits[5],
                a: 255,
            },
        )
    } else {
        Some(
            Rgba {
                r: 16 * digits[0] + digits[1],
                g: 16 * digits[2] + digits[3],
                b: 16 * digits[4] + digits[5],
                a: 16 * digits[6] + digits[7],
            },
        )
    }
}

} // verus!
