//! The built-in bitmap font.
//!
//! Every glyph is an 8x8 bitmap packed row-major into a `u64`: bit
//! `row * 8 + col` is the pixel at `(row, col)`, with column 0 the leftmost
//! pixel of the row. The font covers the printable ASCII range; every other
//! code point draws the placeholder glyph, a boxed pattern that is never
//! blank, so unsupported input stays visible instead of vanishing.

use vstd::prelude::*;

verus! {

/// Width in pixels of every glyph bitmap.
pub const GLYPH_WIDTH: usize = 8;

/// Height in pixels of every glyph bitmap.
pub const GLYPH_HEIGHT: usize = 8;

/// Horizontal advance added after each glyph, beyond the glyph width.
pub const LETTER_SPACING: usize = 1;

/// Bitmap drawn for every code point outside the supported range.
pub const PLACEHOLDER_GLYPH: u64 = 0x001f11151115111f;

/// The code points the font covers: printable ASCII, space through tilde.
pub open spec fn glyph_supported(c: char) -> bool {
    0x20 <= c as u32 <= 0x7e
}

/// The font table: the packed 8x8 bitmap of each supported code point, and
/// the placeholder bitmap for everything else.
pub open spec fn glyph_bits(c: char) -> u64 {
    match c {
        ' ' => 0x0000000000000000,
        '!' => 0x0004000404040404,
        '"' => 0x00000000000a0a0a,
        '#' => 0x000a0a1f0a1f0a0a,
        '$' => 0x00040f140e051e04,
        '%' => 0x0018190204081303,
        '&' => 0x0016091502050906,
        '\'' => 0x0000000000040404,
        '(' => 0x0008040202020408,
        ')' => 0x0002040808080402,
        '*' => 0x000004150e150400,
        '+' => 0x000004041f040400,
        ',' => 0x02040c0000000000,
        '-' => 0x000000001f000000,
        '.' => 0x0006060000000000,
        '/' => 0x0001010204081010,
        '0' => 0x000e11131519110e,
        '1' => 0x000e040404040604,
        '2' => 0x001f02040810110e,
        '3' => 0x000e11100c10110e,
        '4' => 0x0008081f090a0c08,
        '5' => 0x000e1110100f011f,
        '6' => 0x000e11110f01010e,
        '7' => 0x000202020408101f,
        '8' => 0x000e11110e11110e,
        '9' => 0x000e10101e11110e,
        ':' => 0x0000060600060600,
        ';' => 0x0001020600060600,
        '<' => 0x0010080402040810,
        '=' => 0x0000001f001f0000,
        '>' => 0x0001020408040201,
        '?' => 0x000400040810110e,
        '@' => 0x000e011d151d110e,
        'A' => 0x001111111f11110e,
        'B' => 0x000f11110f11110f,
        'C' => 0x000e11010101110e,
        'D' => 0x000f11111111110f,
        'E' => 0x001f01010f01011f,
        'F' => 0x000101010f01011f,
        'G' => 0x001e11111d01110e,
        'H' => 0x001111111f111111,
        'I' => 0x000e04040404040e,
        'J' => 0x000609080808081c,
        'K' => 0x0011090503050911,
        'L' => 0x001f010101010101,
        'M' => 0x0011111115151b11,
        'N' => 0x0011111119151311,
        'O' => 0x000e11111111110e,
        'P' => 0x000101010f11110f,
        'Q' => 0x001609151111110e,
        'R' => 0x001109050f11110f,
        'S' => 0x000f10100e01011e,
        'T' => 0x000404040404041f,
        'U' => 0x000e111111111111,
        'V' => 0x00040a1111111111,
        'W' => 0x00111b1515111111,
        'X' => 0x0011110a040a1111,
        'Y' => 0x00040404040a1111,
        'Z' => 0x001f01020408101f,
        '[' => 0x000e02020202020e,
        '\\' => 0x0010100804020101,
        ']' => 0x000e08080808080e,
        '^' => 0x0000000000110a04,
        '_' => 0x1f00000000000000,
        '`' => 0x0000000000000402,
        'a' => 0x001e111e100e0000,
        'b' => 0x000f1111110f0101,
        'c' => 0x000e1101010e0000,
        'd' => 0x001e1111111e1010,
        'e' => 0x000e011f110e0000,
        'f' => 0x00020202020f020c,
        'g' => 0x0e101e11111e0000,
        'h' => 0x00111111110f0101,
        'i' => 0x000e040404060004,
        'j' => 0x06090808080c0008,
        'k' => 0x0009050305090101,
        'l' => 0x000e040404040406,
        'm' => 0x00151515150b0000,
        'n' => 0x00111111110f0000,
        'o' => 0x000e1111110e0000,
        'p' => 0x01010f11110f0000,
        'q' => 0x10101e11111e0000,
        'r' => 0x00010101130d0000,
        's' => 0x000f100e011e0000,
        't' => 0x000c1202020f0202,
        'u' => 0x001e111111110000,
        'v' => 0x00040a1111110000,
        'w' => 0x000a151511110000,
        'x' => 0x00110a040a110000,
        'y' => 0x0e101e1111110000,
        'z' => 0x001f0204081f0000,
        '{' => 0x0018040402040418,
        '|' => 0x0004040404040404,
        '}' => 0x0003040408040403,
        '~' => 0x0000000010150200,
        _ => PLACEHOLDER_GLYPH,
    }
}

/// Executable lookup of [`glyph_bits`].
pub fn glyph_bitmap(c: char) -> (bits: u64)
    ensures
        bits == glyph_bits(c),
{
    match c {
        ' ' => 0x0000000000000000,
        '!' => 0x0004000404040404,
        '"' => 0x00000000000a0a0a,
        '#' => 0x000a0a1f0a1f0a0a,
        '$' => 0x00040f140e051e04,
        '%' => 0x0018190204081303,
        '&' => 0x0016091502050906,
        '\'' => 0x0000000000040404,
        '(' => 0x0008040202020408,
        ')' => 0x0002040808080402,
        '*' => 0x000004150e150400,
        '+' => 0x000004041f040400,
        ',' => 0x02040c0000000000,
        '-' => 0x000000001f000000,
        '.' => 0x0006060000000000,
        '/' => 0x0001010204081010,
        '0' => 0x000e11131519110e,
        '1' => 0x000e040404040604,
        '2' => 0x001f02040810110e,
        '3' => 0x000e11100c10110e,
        '4' => 0x0008081f090a0c08,
        '5' => 0x000e1110100f011f,
        '6' => 0x000e11110f01010e,
        '7' => 0x000202020408101f,
        '8' => 0x000e11110e11110e,
        '9' => 0x000e10101e11110e,
        ':' => 0x0000060600060600,
        ';' => 0x0001020600060600,
        '<' => 0x0010080402040810,
        '=' => 0x0000001f001f0000,
        '>' => 0x0001020408040201,
        '?' => 0x000400040810110e,
        '@' => 0x000e011d151d110e,
        'A' => 0x001111111f11110e,
        'B' => 0x000f11110f11110f,
        'C' => 0x000e11010101110e,
        'D' => 0x000f11111111110f,
        'E' => 0x001f01010f01011f,
        'F' => 0x000101010f01011f,
        'G' => 0x001e11111d01110e,
        'H' => 0x001111111f111111,
        'I' => 0x000e04040404040e,
        'J' => 0x000609080808081c,
        'K' => 0x0011090503050911,
        'L' => 0x001f010101010101,
        'M' => 0x0011111115151b11,
        'N' => 0x0011111119151311,
        'O' => 0x000e11111111110e,
        'P' => 0x000101010f11110f,
        'Q' => 0x001609151111110e,
        'R' => 0x001109050f11110f,
        'S' => 0x000f10100e01011e,
        'T' => 0x000404040404041f,
        'U' => 0x000e111111111111,
        'V' => 0x00040a1111111111,
        'W' => 0x00111b1515111111,
        'X' => 0x0011110a040a1111,
        'Y' => 0x00040404040a1111,
        'Z' => 0x001f01020408101f,
        '[' => 0x000e02020202020e,
        '\\' => 0x0010100804020101,
        ']' => 0x000e08080808080e,
        '^' => 0x0000000000110a04,
        '_' => 0x1f00000000000000,
        '`' => 0x0000000000000402,
        'a' => 0x001e111e100e0000,
        'b' => 0x000f1111110f0101,
        'c' => 0x000e1101010e0000,
        'd' => 0x001e1111111e1010,
        'e' => 0x000e011f110e0000,
        'f' => 0x00020202020f020c,
        'g' => 0x0e101e11111e0000,
        'h' => 0x00111111110f0101,
        'i' => 0x000e040404060004,
        'j' => 0x06090808080c0008,
        'k' => 0x0009050305090101,
        'l' => 0x000e040404040406,
        'm' => 0x00151515150b0000,
        'n' => 0x00111111110f0000,
        'o' => 0x000e1111110e0000,
        'p' => 0x01010f11110f0000,
        'q' => 0x10101e11111e0000,
        'r' => 0x00010101130d0000,
        's' => 0x000f100e011e0000,
        't' => 0x000c1202020f0202,
        'u' => 0x001e111111110000,
        'v' => 0x00040a1111110000,
        'w' => 0x000a151511110000,
        'x' => 0x00110a040a110000,
        'y' => 0x0e101e1111110000,
        'z' => 0x001f0204081f0000,
        '{' => 0x0018040402040418,
        '|' => 0x0004040404040404,
        '}' => 0x0003040408040403,
        '~' => 0x0000000010150200,
        _ => PLACEHOLDER_GLYPH,
    }
}

/// Whether the pixel at `(row, col)` of the glyph for `c` is set.
pub open spec fn glyph_on(c: char, row: int, col: int) -> bool
    recommends
        0 <= row < GLYPH_HEIGHT,
        0 <= col < GLYPH_WIDTH,
{
    (glyph_bits(c) >> ((row * 8 + col) as u64)) & 1u64 == 1u64
}

/// Executable test of [`glyph_on`].
pub fn glyph_pixel(c: char, row: usize, col: usize) -> (on: bool)
    requires
        row < GLYPH_HEIGHT,
        col < GLYPH_WIDTH,
    ensures
        on == glyph_on(c, row as int, col as int),
{
    let bits = glyph_bitmap(c);
    let sh: u64 = (row as u64) * 8 + (col as u64);
    proof {
        assert(sh == (row * 8 + col) as u64);
    }
    (bits >> sh) & 1 == 1
}

/// Every unsupported code point maps to the placeholder bitmap.
pub proof fn lemma_unsupported_is_placeholder(c: char)
    requires
        !glyph_supported(c),
    ensures
        glyph_bits(c) == PLACEHOLDER_GLYPH,
{
}

/// The placeholder glyph is visible: its top-left pixel is set.
pub proof fn lemma_placeholder_visible(c: char)
    requires
        !glyph_supported(c),
    ensures
        glyph_on(c, 0, 0),
{
    assert((0x001f11151115111fu64 >> 0u64) & 1u64 == 1u64) by (bit_vector);
}

} // verus!
