use fbtext::font;

#[test]
fn space_is_blank() {
    assert_eq!(font::glyph_bitmap(' '), 0);
}

#[test]
fn letter_a_pixels() {
    // Top row of 'A' is ".XXX....": column 0 off, columns 1 to 3 on.
    assert!(!font::glyph_pixel('A', 0, 0));
    assert!(font::glyph_pixel('A', 0, 1));
    assert!(font::glyph_pixel('A', 0, 2));
    assert!(font::glyph_pixel('A', 0, 3));
    assert!(!font::glyph_pixel('A', 0, 4));
    // Row 3 of 'A' is the cross bar "XXXXX...".
    for col in 0..5 {
        assert!(font::glyph_pixel('A', 3, col));
    }
}

#[test]
fn unsupported_code_point_uses_placeholder() {
    assert_eq!(font::glyph_bitmap('\u{263a}'), font::PLACEHOLDER_GLYPH);
    assert_eq!(font::glyph_bitmap('\u{7}'), font::PLACEHOLDER_GLYPH);
    assert_ne!(font::PLACEHOLDER_GLYPH, 0);
    // Its top-left pixel is set, so it can never render as blank space.
    assert!(font::glyph_pixel('\u{263a}', 0, 0));
}

#[test]
fn supported_glyphs_differ_from_placeholder() {
    for c in ' '..='~' {
        assert_ne!(font::glyph_bitmap(c), font::PLACEHOLDER_GLYPH);
    }
}
