//! Small helpers: display colors and name slugs.

pub mod slug;

pub use slug::{name_to_slug, slug_from_lowercase};

use crate::text::chars_of;
use vstd::prelude::*;
use vstd::string::StringSliceAdditionalSpecFns;

verus! {

/// A display color: one of the terminal's named colors, or red, green and
/// blue components.
#[derive(Debug, Clone, Copy, PartialEq, Eq, Structural)]
pub enum Color {
    White,
    Gray,
    Cyan,
    LightCyan,
    Yellow,
    Magenta,
    LightMagenta,
    Rgb(u8, u8, u8),
}

/// The ten colors that reports without a color of their own are spread over.
pub open spec fn palette(i: int) -> Color {
    if i == 0 {
        Color::Rgb(100, 149, 237)
    } else if i == 1 {
        Color::Rgb(143, 188, 143)
    } else if i == 2 {
        Color::Rgb(205, 133, 63)
    } else if i == 3 {
        Color::Rgb(147, 112, 219)
    } else if i == 4 {
        Color::Rgb(240, 128, 128)
    } else if i == 5 {
        Color::Rgb(72, 61, 139)
    } else if i == 6 {
        Color::Rgb(189, 183, 107)
    } else if i == 7 {
        Color::Rgb(178, 102, 102)
    } else if i == 8 {
        Color::Rgb(70, 130, 180)
    } else {
        Color::Rgb(102, 178, 102)
    }
}

/// Hash of a byte string: starting from 0, each byte turns `h` into
/// `h * 31 + byte`, kept to 32 bits.
pub open spec fn name_hash(bytes: Seq<u8>) -> int
    decreases bytes.len(),
{
    if bytes.len() == 0 {
        0
    } else {
        (name_hash(bytes.drop_last()) * 31 + bytes.last()) % 0x1_0000_0000
    }
}

fn palette_color(i: u64) -> (c: Color)
    requires
        i < 10,
    ensures
        c == palette(i as int),
{
    if i == 0 {
        Color::Rgb(100, 149, 237)
    } else if i == 1 {
        Color::Rgb(143, 188, 143)
    } else if i == 2 {
        Color::Rgb(205, 133, 63)
    } else if i == 3 {
        Color::Rgb(147, 112, 219)
    } else if i == 4 {
        Color::Rgb(240, 128, 128)
    } else if i == 5 {
        Color::Rgb(72, 61, 139)
    } else if i == 6 {
        Color::Rgb(189, 183, 107)
    } else if i == 7 {
        Color::Rgb(178, 102, 102)
    } else if i == 8 {
        Color::Rgb(70, 130, 180)
    } else {
        Color::Rgb(102, 178, 102)
    }
}

/// Generate a display color from a name: the palette entry picked by the
/// hash of the name's UTF-8 bytes.
pub fn color_from_name(name: &str) -> (c: Color)
    ensures
        c == palette(name_hash(name.spec_bytes()) % 10),
{
    let bytes: &[u8] = name.as_bytes();
    let mut h: u64 = 0;
    let mut i: usize = 0;
    while i < bytes.len()
        invariant
            i <= bytes.len(),
            bytes@ == name.spec_bytes(),
            h == name_hash(bytes@.take(i as int)),
            h < 0x1_0000_0000,
        decreases bytes.len() - i,
    {
        proof {
            assert(bytes@.take(i + 1).drop_last() =~= bytes@.take(i as int));
        }
        h = (h * 31 + bytes[i] as u64) % 0x1_0000_0000;
        i += 1;
    }
    proof {
        assert(bytes@.take(i as int) =~= bytes@);
    }
    palette_color(h % 10)
}

/// Value of one hexadecimal digit, upper or lower case.
pub open spec fn hex_digit(c: char) -> Option<int> {
    if '0' <= c <= '9' {
        Some(c as u32 - '0' as u32)
    } else if 'a' <= c <= 'f' {
        Some(c as u32 - 'a' as u32 + 10)
    } else if 'A' <= c <= 'F' {
        Some(c as u32 - 'A' as u32 + 10)
    } else {
        None
    }
}

/// Value of a two-character hexadecimal number. As in the integer parser of
/// the standard library, a plus sign may take the place of the first digit.
pub open spec fn hex_pair(a: char, b: char) -> Option<int> {
    if a == '+' {
        hex_digit(b)
    } else {
        match (hex_digit(a), hex_digit(b)) {
            (Some(x), Some(y)) => Some(16 * x + y),
            _ => None,
        }
    }
}

/// Number of `#` characters at the start of `s`.
pub open spec fn leading_hashes(s: Seq<char>) -> nat
    decreases s.len(),
{
    if s.len() > 0 && s[0] == '#' {
        1 + leading_hashes(s.drop_first())
    } else {
        0
    }
}

/// The color written as `RRGGBB` after any leading `#` characters: exactly
/// six characters, each pair a hexadecimal number.
pub open spec fn hex_color(s: Seq<char>) -> Option<Color> {
    let t = s.skip(leading_hashes(s) as int);
    if t.len() != 6 {
        None
    } else {
        match (hex_pair(t[0], t[1]), hex_pair(t[2], t[3]), hex_pair(t[4], t[5])) {
            (Some(r), Some(g), Some(b)) => Some(Color::Rgb(r as u8, g as u8, b as u8)),
            _ => None,
        }
    }
}

proof fn lemma_leading_hashes_is(s: Seq<char>, n: int)
    requires
        0 <= n <= s.len(),
        forall|i: int| 0 <= i < n ==> s[i] == '#',
        n < s.len() ==> s[n] != '#',
    ensures
        leading_hashes(s) == n,
    decreases s.len(),
{
    if s.len() > 0 && s[0] == '#' {
        let t = s.drop_first();
        assert forall|i: int| 0 <= i < n - 1 implies t[i] == '#' by {
            assert(t[i] == s[i + 1]);
        }
        lemma_leading_hashes_is(t, n - 1);
    }
}

fn hex_digit_value(c: char) -> (r: Option<u8>)
    ensures
        match r {
            Some(v) => hex_digit(c) == Some(v as int) && v < 16,
            None => hex_digit(c) is None,
        },
{
    if '0' <= c && c <= '9' {
        Some((c as u32 - '0' as u32) as u8)
    } else if 'a' <= c && c <= 'f' {
        Some((c as u32 - 'a' as u32 + 10) as u8)
    } else if 'A' <= c && c <= 'F' {
        Some((c as u32 - 'A' as u32 + 10) as u8)
    } else {
        None
    }
}

fn hex_pair_value(a: char, b: char) -> (r: Option<u8>)
    ensures
        match r {
            Some(v) => hex_pair(a, b) == Some(v as int),
            None => hex_pair(a, b) is None,
        },
{
    if a == '+' {
        hex_digit_value(b)
    } else {
        match (hex_digit_value(a), hex_digit_value(b)) {
            (Some(x), Some(y)) => Some(16 * x + y),
            _ => None,
        }
    }
}

/// Parse a hex color string like "#6495ED" into a Color
pub fn parse_hex_color(hex: &str) -> (r: Option<Color>)
    ensures
        r == hex_color(hex@),
{
    let v: Vec<char> = chars_of(hex);
    let mut start: usize = 0;
    while start < v.len() && v[start] == '#'
        invariant
            start <= v.len(),
            forall|i: int| 0 <= i < start ==> v@[i] == '#',
        decreases v.len() - start,
    {
        start += 1;
    }
    proof {
        lemma_leading_hashes_is(v@, start as int);
    }
    if v.len() - start != 6 {
        return None;
    }
    let ghost t = v@.skip(start as int);
    proof {
        assert(t.len() == 6);
        assert(t[0] == v@[start + 0] && t[1] == v@[start + 1] && t[2] == v@[start + 2]);
        assert(t[3] == v@[start + 3] && t[4] == v@[start + 4] && t[5] == v@[start + 5]);
    }
    let r: Option<u8> = hex_pair_value(v[start], v[start + 1]);
    let g: Option<u8> = hex_pair_value(v[start + 2], v[start + 3]);
    let b: Option<u8> = hex_pair_value(v[start + 4], v[start + 5]);
    match (r, g, b) {
        (Some(r), Some(g), Some(b)) => Some(Color::Rgb(r, g, b)),
        _ => None,
    }
}

/// The color of a report: its own where `color` holds a hex color, else the
/// one derived from `name`.
pub open spec fn report_color_spec(color: Option<Seq<char>>, name_bytes: Seq<u8>) -> Color {
    match color {
        Some(text) => match hex_color(text) {
            Some(c) => c,
            None => palette(name_hash(name_bytes) % 10),
        },
        None => palette(name_hash(name_bytes) % 10),
    }
}

/// Get display color for a report - uses explicit color if set, otherwise
/// generates from name
pub fn report_color(color: Option<&str>, name: &str) -> (c: Color)
    ensures
        c == report_color_spec(
            match color {
                Some(t) => Some(t@),
                None => None,
            },
            name.spec_bytes(),
        ),
{
    match color {
        Some(text) => match parse_hex_color(text) {
            Some(c) => c,
            None => color_from_name(name),
        },
        None => color_from_name(name),
    }
}

} // verus!
