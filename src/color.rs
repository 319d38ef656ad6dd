//! Colors, and the hex notation they are configured in.

use vstd::prelude::*;

verus! {

/// A color with straight (not premultiplied) alpha.
#[derive(Debug, Clone, Copy, PartialEq, Eq, Structural)]
pub struct Color {
    pub a: u8,
    pub r: u8,
    pub g: u8,
    pub b: u8,
}

/// Opaque white.
pub open spec fn white() -> Color {
    Color { a: 255, r: 255, g: 255, b: 255 }
}

/// The value of a hex digit of either case.
pub open spec fn hex_digit_value(c: char) -> Option<nat> {
    if '0' <= c && c <= '9' {
        Some((c as nat - 48) as nat)
    } else if 'a' <= c && c <= 'f' {
        Some((c as nat - 87) as nat)
    } else if 'A' <= c && c <= 'F' {
        Some((c as nat - 55) as nat)
    } else {
        None
    }
}

/// The byte two characters stand for: two hex digits, or a `+` sign and
/// one digit.
pub open spec fn pair_value(c0: char, c1: char) -> Option<u8> {
    if c0 == '+' {
        match hex_digit_value(c1) {
            Some(v) => Some(v as u8),
            None => None,
        }
    } else {
        match (hex_digit_value(c0), hex_digit_value(c1)) {
            (Some(hi), Some(lo)) => Some((16 * hi + lo) as u8),
            _ => None,
        }
    }
}

/// `s` without its leading `#` characters.
pub open spec fn strip_hashes(s: Seq<char>) -> Seq<char>
    decreases s.len(),
{
    if s.len() > 0 && s[0] == '#' {
        strip_hashes(s.drop_first())
    } else {
        s
    }
}

/// The bytes of the character pairs of `s` that are valid, in order; a
/// last unpaired character is ignored.
pub open spec fn hex_bytes(s: Seq<char>) -> Seq<u8>
    decreases s.len(),
{
    if s.len() < 2 {
        seq![]
    } else {
        let rest = hex_bytes(s.skip(2));
        match pair_value(s[0], s[1]) {
            Some(b) => seq![b] + rest,
            None => rest,
        }
    }
}

/// The color `#rrggbb` (opaque) or `#rrggbbaa` describes; white for
/// anything else.
pub open spec fn color_of(hex: Seq<char>) -> Color {
    let b = hex_bytes(strip_hashes(hex));
    if b.len() == 3 {
        Color { a: 255, r: b[0], g: b[1], b: b[2] }
    } else if b.len() == 4 {
        Color { a: b[3], r: b[0], g: b[1], b: b[2] }
    } else {
        white()
    }
}

fn hex_digit(c: char) -> (r: Option<u8>)
    ensures
        match hex_digit_value(c) {
            Some(v) => r == Some(v as u8),
            None => r is None,
        },
{
    let n = c as u32;
    if '0' <= c && c <= '9' {
        Some((n - 48) as u8)
    } else if 'a' <= c && c <= 'f' {
        Some((n - 87) as u8)
    } else if 'A' <= c && c <= 'F' {
        Some((n - 55) as u8)
    } else {
        None
    }
}

fn pair(c0: char, c1: char) -> (r: Option<u8>)
    ensures
        r == pair_value(c0, c1),
{
    let lo = hex_digit(c1);
    if c0 == '+' {
        lo
    } else {
        match (hex_digit(c0), lo) {
            (Some(hi), Some(lo)) => Some(16 * hi + lo),
            _ => None,
        }
    }
}

/// Reads `#rrggbb` or `#rrggbbaa` (any number of leading `#`, digits of
/// either case); anything that does not give three or four bytes is white.
pub fn parse_hex_color(hex: &str) -> (r: Color)
    ensures
        r == color_of(hex@),
{
    let len = hex.unicode_len();
    let mut k: usize = 0;
    assert(hex@.skip(0) =~= hex@);
    while k < len && hex.get_char(k) == '#'
        invariant
            len == hex@.len(),
            k <= len,
            strip_hashes(hex@) == strip_hashes(hex@.skip(k as int)),
        decreases len - k,
    {
        assert(hex@.skip(k as int).drop_first() =~= hex@.skip(k + 1));
        k = k + 1;
    }
    let ghost body = hex@.skip(k as int);
    assert(strip_hashes(body) == body);
    let mut bytes: Vec<u8> = Vec::new();
    let mut i: usize = k;
    while len - i >= 2
        invariant
            len == hex@.len(),
            k <= i <= len,
            body == hex@.skip(k as int),
            bytes@ + hex_bytes(hex@.skip(i as int)) == hex_bytes(body),
        decreases len - i,
    {
        let ghost rest = hex@.skip(i as int);
        assert(rest.skip(2) =~= hex@.skip(i + 2));
        let ghost before = bytes@;
        match pair(hex.get_char(i), hex.get_char(i + 1)) {
            Some(b) => {
                bytes.push(b);
                assert(bytes@ + hex_bytes(hex@.skip(i + 2)) =~= before + (seq![b] + hex_bytes(hex@.skip(i + 2))));
            },
            None => {},
        }
        i = i + 2;
    }
    assert(hex@.skip(i as int).len() < 2);
    assert(hex_bytes(hex@.skip(i as int)) == Seq::<u8>::empty());
    assert(bytes@ =~= hex_bytes(body));
    if bytes.len() == 3 {
        Color { a: 255, r: bytes[0], g: bytes[1], b: bytes[2] }
    } else if bytes.len() == 4 {
        Color { a: bytes[3], r: bytes[0], g: bytes[1], b: bytes[2] }
    } else {
        Color { a: 255, r: 255, g: 255, b: 255 }
    }
}

} // verus!
