//! Mapping of small numbers to Braille-pattern characters.
use vstd::prelude::*;

verus! {

/// First codepoint of the Braille Patterns block.
pub const BRAILLE_BASE: u32 = 0x2800;

/// Character shown for a value that has no Braille pattern.
pub const FALLBACK: char = '?';

/// Codepoint shown for `v`: its Braille pattern when `v` fits in one byte,
/// else the fallback mark.
pub open spec fn glyph_code(v: int) -> int {
    if 0 <= v <= 255 {
        0x2800 + v
    } else {
        FALLBACK as int
    }
}

/// The tens and units digits of the last two digits of a year.
pub open spec fn year_digits(y: int) -> (int, int) {
    ((y % 100) / 10, (y % 100) % 10)
}

/// Relies on `char::from_u32`: `None` exactly for surrogates and values above
/// `char::MAX`, else the character with that codepoint.
#[verifier::external_body]
fn char_from_code(code: u32) -> (r: Option<char>)
    ensures
        r is Some <==> (code <= 0x10FFFF && !(0xD800 <= code <= 0xDFFF)),
        r matches Some(c) ==> c as int == code as int,
{
    char::from_u32(code)
}

/// The Braille pattern for `number`, or `None` when it does not fit in one byte.
pub fn number_to_dots(number: u32) -> (r: Option<char>)
    ensures
        r is Some <==> number <= 255,
        r matches Some(c) ==> c as int == BRAILLE_BASE + number,
{
    if number <= 0xFF {
        char_from_code(BRAILLE_BASE + number)
    } else {
        None
    }
}

/// The glyph shown for `value`: its Braille pattern, or `?` when it has none.
pub fn glyph(value: u32) -> (r: char)
    ensures
        r as int == glyph_code(value as int),
        value <= 255 ==> r as int == BRAILLE_BASE + value,
        value > 255 ==> r == FALLBACK,
{
    match number_to_dots(value) {
        Some(c) => c,
        None => FALLBACK,
    }
}

/// Splits a year into the tens and units digits of its last two digits,
/// counting the last two digits as the year modulo 100 (so never negative).
pub fn year_2digit(full_year: i32) -> (r: (u32, u32))
    ensures
        r.0 as int == year_digits(full_year as int).0,
        r.1 as int == year_digits(full_year as int).1,
        r.0 < 10,
        r.1 < 10,
{
    let rem: i32 = full_year % 100;
    let y: u32 = if rem < 0 {
        (rem + 100) as u32
    } else {
        rem as u32
    };
    assert(y as int == (full_year as int) % 100);
    (y / 10, y % 10)
}

} // verus!
