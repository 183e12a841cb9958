use dotclock::glyph::{glyph, number_to_dots, year_2digit};

#[test]
fn glyph_codepoints_cover_the_byte_range() {
    for v in 0u32..=255 {
        assert_eq!(glyph(v) as u32, 0x2800 + v);
        assert_eq!(number_to_dots(v), char::from_u32(0x2800 + v));
    }
}

#[test]
fn glyph_falls_back_above_one_byte() {
    assert_eq!(glyph(256), '?');
    assert_eq!(glyph(u32::MAX), '?');
    assert_eq!(number_to_dots(256), None);
}

#[test]
fn glyph_edges() {
    assert_eq!(glyph(0), '\u{2800}');
    assert_eq!(glyph(255), '\u{28FF}');
    assert_eq!(glyph(14), '\u{280E}');
}

#[test]
fn year_digits_of_2024() {
    assert_eq!(year_2digit(2024), (2, 4));
}

#[test]
fn year_digits_edges() {
    assert_eq!(year_2digit(2000), (0, 0));
    assert_eq!(year_2digit(1999), (9, 9));
    assert_eq!(year_2digit(7), (0, 7));
    assert_eq!(year_2digit(-1), (9, 9));
    assert_eq!(year_2digit(-2024), (7, 6));
}
