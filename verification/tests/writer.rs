use fbtext::font::{GLYPH_HEIGHT, GLYPH_WIDTH, LETTER_SPACING};
use fbtext::framebuffer::{
    BACKGROUND, FOREGROUND_BLUE, FOREGROUND_GRAY, FOREGROUND_GREEN, FOREGROUND_RED,
    FrameBufferInfo, PixelFormat,
};
use fbtext::writer::FrameBufferWriter;

fn gray_info(width: usize, height: usize, stride: usize) -> FrameBufferInfo {
    FrameBufferInfo {
        width,
        height,
        stride,
        bytes_per_pixel: 1,
        pixel_format: PixelFormat::Grayscale,
    }
}

fn gray_writer(width: usize, height: usize, stride: usize) -> FrameBufferWriter {
    let info = gray_info(width, height, stride);
    FrameBufferWriter::new(vec![0xaa; height * stride], info)
}

#[test]
fn new_clears_to_background() {
    let w = gray_writer(16, 16, 16);
    for i in 0..256 {
        assert_eq!(w.byte_at(i), BACKGROUND);
    }
    assert_eq!(w.cursor_x(), 0);
    assert_eq!(w.cursor_y(), 0);
}

#[test]
fn empty_string_round_trip_stays_blank() {
    let mut w = gray_writer(16, 16, 16);
    w.write_string("");
    for i in 0..256 {
        assert_eq!(w.byte_at(i), BACKGROUND);
    }
    assert_eq!(w.cursor_x(), 0);
    assert_eq!(w.cursor_y(), 0);
}

#[test]
fn glyph_renders_at_origin() {
    let mut w = gray_writer(16, 16, 16);
    w.write_char('A');
    // Top row of 'A' is ".XXX....".
    assert_eq!(w.byte_at(0), BACKGROUND);
    assert_eq!(w.byte_at(1), FOREGROUND_GRAY);
    assert_eq!(w.byte_at(2), FOREGROUND_GRAY);
    assert_eq!(w.byte_at(3), FOREGROUND_GRAY);
    assert_eq!(w.byte_at(4), BACKGROUND);
    // Row 1 of 'A' is "X...X...".
    assert_eq!(w.byte_at(16), FOREGROUND_GRAY);
    assert_eq!(w.byte_at(17), BACKGROUND);
    assert_eq!(w.byte_at(20), FOREGROUND_GRAY);
}

#[test]
fn char_advances_by_one_cell() {
    let mut w = gray_writer(16, 16, 16);
    w.write_char('A');
    assert_eq!(w.cursor_x(), GLYPH_WIDTH + LETTER_SPACING);
    assert_eq!(w.cursor_y(), 0);
}

#[test]
fn char_wraps_at_right_edge() {
    let mut w = gray_writer(16, 16, 16);
    w.write_char('A');
    // x is 9 and 9 + 8 > 16, so the next glyph wraps to the second line.
    w.write_char('B');
    assert_eq!(w.cursor_x(), GLYPH_WIDTH + LETTER_SPACING);
    assert_eq!(w.cursor_y(), GLYPH_HEIGHT);
    // Top-left pixel of 'B' ("XXXX....") lands at (0, 8).
    assert_eq!(w.byte_at(8 * 16), FOREGROUND_GRAY);
}

#[test]
fn line_of_text_keeps_row() {
    let mut w = gray_writer(100, 16, 100);
    w.write_string("Hi!");
    assert_eq!(w.cursor_x(), 3 * (GLYPH_WIDTH + LETTER_SPACING));
    assert_eq!(w.cursor_y(), 0);
}

#[test]
fn newline_and_carriage_return_move_cursor() {
    let mut w = gray_writer(100, 32, 100);
    w.write_string("AB");
    assert_eq!(w.cursor_x(), 18);
    w.write_char('\r');
    assert_eq!(w.cursor_x(), 0);
    assert_eq!(w.cursor_y(), 0);
    w.write_char('\n');
    assert_eq!(w.cursor_x(), 0);
    assert_eq!(w.cursor_y(), GLYPH_HEIGHT);
}

#[test]
fn scroll_shifts_rows_up_and_clears_bottom() {
    let mut w = gray_writer(16, 16, 16);
    // Draw 'B' on the second (bottom) text line.
    w.change_cursor_position(0, 8);
    w.write_char('B');
    assert_eq!(w.byte_at(8 * 16), FOREGROUND_GRAY);
    // A line feed from the bottom line scrolls one glyph row: the bottom
    // line's pixels move to the top line, and the freed rows are blank.
    w.write_char('\n');
    assert_eq!(w.byte_at(0), FOREGROUND_GRAY);
    for i in (8 * 16)..(16 * 16) {
        assert_eq!(w.byte_at(i), BACKGROUND);
    }
    assert_eq!(w.cursor_y(), 8);
    assert_eq!(w.cursor_x(), 0);
}

#[test]
fn cursor_position_directs_rendering() {
    let mut w = gray_writer(16, 16, 16);
    w.change_cursor_position(5, 7);
    assert_eq!(w.cursor_x(), 5);
    assert_eq!(w.cursor_y(), 7);
    w.write_char('X');
    // Top-left pixel of 'X' ("X...X...") lands exactly at (5, 7).
    assert_eq!(w.byte_at(7 * 16 + 5), FOREGROUND_GRAY);
    // The pre-call origin stays blank.
    assert_eq!(w.byte_at(0), BACKGROUND);
}

#[test]
fn cursor_position_clamps_to_glyph_cell() {
    let mut w = gray_writer(16, 16, 16);
    w.change_cursor_position(1000, 1000);
    assert_eq!(w.cursor_x(), 16 - GLYPH_WIDTH);
    assert_eq!(w.cursor_y(), 16 - GLYPH_HEIGHT);
}

#[test]
fn minimal_framebuffer_wraps_and_scrolls() {
    // The smallest usable framebuffer holds exactly one glyph cell.
    let mut w = gray_writer(8, 8, 8);
    w.write_char('A');
    assert_eq!(w.cursor_x(), 9);
    // The next glyph wraps, the single line scrolls away, and the glyph
    // lands at the origin.
    w.write_char('B');
    assert_eq!((w.cursor_x(), w.cursor_y()), (9, 0));
    // Top-left pixel of 'B' ("XXXX....") is set.
    assert_eq!(w.byte_at(0), FOREGROUND_GRAY);
    // Pixel (4, 3) was set in 'A' ("XXXXX...") but is clear in 'B'
    // ("XXXX...."), so the 'A' really scrolled away.
    assert_eq!(w.byte_at(3 * 8 + 4), BACKGROUND);
}

#[test]
fn embedded_newline_starts_second_line() {
    let mut w = gray_writer(100, 32, 100);
    w.write_string("A\nB");
    assert_eq!(w.cursor_x(), GLYPH_WIDTH + LETTER_SPACING);
    assert_eq!(w.cursor_y(), GLYPH_HEIGHT);
    // Top-left pixel of 'B' lands at (0, 8).
    assert_eq!(w.byte_at(8 * 100), FOREGROUND_GRAY);
}

#[test]
fn unsupported_code_point_is_visible() {
    let mut w = gray_writer(16, 16, 16);
    w.write_char('\u{263a}');
    // The placeholder's top-left pixel is set; a blank glyph would leave it
    // at the background value.
    assert_eq!(w.byte_at(0), FOREGROUND_GRAY);
    assert_eq!(w.cursor_x(), GLYPH_WIDTH + LETTER_SPACING);
}

#[test]
fn rgb_pixel_byte_order() {
    let info = FrameBufferInfo {
        width: 8,
        height: 8,
        stride: 32,
        bytes_per_pixel: 3,
        pixel_format: PixelFormat::Rgb,
    };
    let mut w = FrameBufferWriter::new(vec![0u8; 8 * 32], info);
    // '|' has its top pixel at column 2: byte offset 2 * 3 = 6.
    w.write_char('|');
    assert_eq!(w.byte_at(6), FOREGROUND_RED);
    assert_eq!(w.byte_at(7), FOREGROUND_GREEN);
    assert_eq!(w.byte_at(8), FOREGROUND_BLUE);
    // Scan-line padding bytes stay untouched.
    assert_eq!(w.byte_at(24), BACKGROUND);
}

#[test]
fn bgr_pixel_byte_order() {
    let info = FrameBufferInfo {
        width: 8,
        height: 8,
        stride: 32,
        bytes_per_pixel: 3,
        pixel_format: PixelFormat::Bgr,
    };
    let mut w = FrameBufferWriter::new(vec![0u8; 8 * 32], info);
    w.write_char('|');
    assert_eq!(w.byte_at(6), FOREGROUND_BLUE);
    assert_eq!(w.byte_at(7), FOREGROUND_GREEN);
    assert_eq!(w.byte_at(8), FOREGROUND_RED);
}

#[test]
fn four_byte_pixel_pads_with_background() {
    let info = FrameBufferInfo {
        width: 8,
        height: 8,
        stride: 32,
        bytes_per_pixel: 4,
        pixel_format: PixelFormat::Rgb,
    };
    let mut w = FrameBufferWriter::new(vec![0xffu8; 8 * 32], info);
    // '|' has its top pixel at column 2: byte offset 2 * 4 = 8.
    w.write_char('|');
    assert_eq!(w.byte_at(8), FOREGROUND_RED);
    assert_eq!(w.byte_at(9), FOREGROUND_GREEN);
    assert_eq!(w.byte_at(10), FOREGROUND_BLUE);
    assert_eq!(w.byte_at(11), BACKGROUND);
}

#[test]
fn info_is_kept() {
    let info = gray_info(16, 16, 20);
    let w = FrameBufferWriter::new(vec![0u8; 16 * 20], info);
    assert_eq!(w.info(), info);
}
