//! The writer's laws: proofs of the behaviour the renderer guarantees across
//! whole calls and call sequences — cursor advance, line stability, scroll
//! order, cursor-directed placement, the clear round trip, and visible
//! placeholder rendering.

use vstd::prelude::*;

use crate::font::GLYPH_HEIGHT;
use crate::font::GLYPH_WIDTH;
use crate::font::LETTER_SPACING;
use crate::font::PLACEHOLDER_GLYPH;
use crate::font::glyph_bits;
use crate::font::glyph_on;
use crate::font::glyph_supported;
use crate::font::lemma_placeholder_visible;
use crate::font::lemma_unsupported_is_placeholder;
use crate::framebuffer::BACKGROUND;
use crate::framebuffer::FrameBufferInfo;
use crate::framebuffer::blit;
use crate::framebuffer::cleared;
use crate::framebuffer::lemma_blit_pixel;
use crate::framebuffer::lemma_pixel_in_visible;
use crate::framebuffer::scrolled;
use crate::writer::WriterView;
use crate::writer::lemma_write_char_wf;
use crate::writer::spec_clamp_cursor;
use crate::writer::spec_newline;
use crate::writer::spec_write_char;
use crate::writer::spec_write_str;

verus! {

/// Writing one printable character advances `x` by exactly one glyph cell —
/// glyph width plus letter spacing — and leaves `y` alone, unless the cell
/// would cross the right edge: then the cursor wraps to the start of a new
/// line (which scrolls if that line would cross the bottom) and the glyph is
/// drawn there, so `x` ends one cell past the left edge.
pub proof fn lemma_char_advances_cursor(w: WriterView, c: char)
    requires
        w.wf(),
        c != '\n',
        c != '\r',
    ensures
        w.x + GLYPH_WIDTH <= w.info.width ==> spec_write_char(w, c).x == w.x + GLYPH_WIDTH
            + LETTER_SPACING && spec_write_char(w, c).y == w.y,
        w.x + GLYPH_WIDTH > w.info.width ==> spec_write_char(w, c).x == GLYPH_WIDTH
            + LETTER_SPACING && spec_write_char(w, c).y == spec_newline(w).y,
        w.x + GLYPH_WIDTH > w.info.width && w.y + 2 * GLYPH_HEIGHT <= w.info.height ==>
            spec_write_char(w, c).y == w.y + GLYPH_HEIGHT,
        w.x + GLYPH_WIDTH > w.info.width && w.y + 2 * GLYPH_HEIGHT > w.info.height ==>
            spec_write_char(w, c).y == w.info.height - GLYPH_HEIGHT,
{
}

/// Writing a string of printable characters that fits on the current line
/// leaves `y` unchanged and advances `x` by the sum of the per-character
/// advances.
pub proof fn lemma_line_write_keeps_row(w: WriterView, s: Seq<char>)
    requires
        w.wf(),
        forall|i: int| 0 <= i < s.len() ==> s[i] != '\n' && s[i] != '\r',
        s.len() > 0 ==> w.x + (s.len() - 1) * (GLYPH_WIDTH + LETTER_SPACING) + GLYPH_WIDTH
            <= w.info.width,
    ensures
        spec_write_str(w, s).y == w.y,
        spec_write_str(w, s).x == w.x + s.len() * (GLYPH_WIDTH + LETTER_SPACING),
        spec_write_str(w, s).info == w.info,
    decreases s.len(),
{
    if s.len() > 0 {
        vstd::arithmetic::mul::lemma_mul_nonnegative(
            s.len() - 1,
            (GLYPH_WIDTH + LETTER_SPACING) as int,
        );
        lemma_char_advances_cursor(w, s[0]);
        lemma_write_char_wf(w, s[0]);
        let w1 = spec_write_char(w, s[0]);
        lemma_line_write_keeps_row(w1, s.drop_first());
    }
}

/// Scrolling preserves the visual order of the surviving rows: every pixel
/// row except the topmost glyph row moves up by exactly one glyph row, so
/// what was pixel row `y + GLYPH_HEIGHT` becomes pixel row `y`.
pub proof fn lemma_scroll_preserves_rows(
    info: FrameBufferInfo,
    bytes: Seq<u8>,
    x: int,
    y: int,
    k: int,
)
    requires
        info.wf(),
        bytes.len() >= info.visible_len(),
        0 <= x < info.width,
        0 <= y < info.height - GLYPH_HEIGHT,
        0 <= k < info.bytes_per_pixel,
    ensures
        scrolled(info, bytes)[info.pixel_offset(x, y) + k] == bytes[info.pixel_offset(
            x,
            y + GLYPH_HEIGHT,
        ) + k],
{
    lemma_pixel_in_visible(info, x, y);
    lemma_pixel_in_visible(info, x, y + GLYPH_HEIGHT);
    vstd::arithmetic::mul::lemma_mul_inequality(
        y + 1,
        info.height - GLYPH_HEIGHT,
        info.stride as int,
    );
    vstd::arithmetic::mul::lemma_mul_is_distributive_sub_other_way(
        info.stride as int,
        info.height as int,
        GLYPH_HEIGHT as int,
    );
    vstd::arithmetic::mul::lemma_mul_is_distributive_add_other_way(
        info.stride as int,
        y,
        GLYPH_HEIGHT as int,
    );
}

/// A line feed scrolls exactly when the next line would cross the bottom
/// edge, and otherwise leaves the pixels alone; so a run of writes scrolls
/// once per line that overflows the bottom, and never more.
pub proof fn lemma_newline_scrolls_iff(w: WriterView)
    requires
        w.wf(),
    ensures
        w.y + 2 * GLYPH_HEIGHT <= w.info.height ==> spec_newline(w).bytes == w.bytes,
        w.y + 2 * GLYPH_HEIGHT > w.info.height ==> spec_newline(w).bytes == scrolled(
            w.info,
            w.bytes,
        ),
{
}

/// One written character scrolls at most once: whatever the character and
/// cursor, the new pixels are the old ones — scrolled at most one glyph row —
/// with at most one glyph drawn on top.
pub proof fn lemma_write_char_scrolls_at_most_once(w: WriterView, c: char)
    requires
        w.wf(),
    ensures
        ({
            let v = spec_write_char(w, c);
            ||| v.bytes == w.bytes
            ||| v.bytes == scrolled(w.info, w.bytes)
            ||| v.bytes == blit(w.info, w.bytes, c, w.x, w.y)
            ||| v.bytes == blit(w.info, w.bytes, c, 0, w.y + GLYPH_HEIGHT)
            ||| v.bytes == blit(
                w.info,
                scrolled(w.info, w.bytes),
                c,
                0,
                w.info.height - GLYPH_HEIGHT,
            )
        }),
{
}

/// Repositioning the cursor to an in-range `(x, y)` and then writing a
/// printable character renders the glyph with its top-left corner at exactly
/// `(x, y)`: inside the glyph cell every set glyph pixel holds the foreground
/// bytes and every other pixel keeps its old bytes, and outside the cell
/// nothing changes.
pub proof fn lemma_cursor_then_write_places_glyph(
    w: WriterView,
    x: int,
    y: int,
    c: char,
    qx: int,
    qy: int,
    k: int,
)
    requires
        w.wf(),
        c != '\n',
        c != '\r',
        0 <= x,
        x + GLYPH_WIDTH <= w.info.width,
        0 <= y,
        y + GLYPH_HEIGHT <= w.info.height,
        0 <= qx < w.info.width,
        0 <= qy < w.info.height,
        0 <= k < w.info.bytes_per_pixel,
    ensures
        spec_clamp_cursor(w.info, x, y) == (x, y),
        ({
            let moved = WriterView { x, y, ..w };
            let t = w.info.pixel_offset(qx, qy) + k;
            spec_write_char(moved, c).bytes[t] == if x <= qx < x + GLYPH_WIDTH && y <= qy < y
                + GLYPH_HEIGHT && glyph_on(c, qy - y, qx - x) {
                w.info.fg_byte(k)
            } else {
                w.bytes[t]
            }
        }),
{
    let moved = WriterView { x, y, ..w };
    assert(spec_write_char(moved, c).bytes == blit(w.info, w.bytes, c, x, y));
    lemma_blit_pixel(w.info, w.bytes, c, x, y, qx, qy, k);
}

/// The clear round trip: a freshly constructed writer followed by writing
/// the empty string leaves the writer exactly in its cleared state — cursor
/// at the origin and every visible byte at the background value.
pub proof fn lemma_clear_then_empty_write_blank(info: FrameBufferInfo, bytes: Seq<u8>, i: int)
    requires
        info.wf(),
        bytes.len() >= info.visible_len(),
        0 <= i < info.visible_len(),
    ensures
        ({
            let fresh = WriterView { bytes: cleared(info, bytes), info, x: 0, y: 0 };
            let after = spec_write_str(fresh, Seq::<char>::empty());
            after == fresh && after.bytes[i] == BACKGROUND
        }),
{
}

/// An unsupported code point is rendered as the placeholder glyph — drawn
/// through the same blit as any other glyph, with a visibly set top-left
/// pixel — never as blank space and never by skipping the character.
pub proof fn lemma_unsupported_renders_placeholder(w: WriterView, c: char)
    requires
        w.wf(),
        !glyph_supported(c),
        c != '\n',
        c != '\r',
    ensures
        glyph_bits(c) == PLACEHOLDER_GLYPH,
        glyph_on(c, 0, 0),
        ({
            let at = if w.x + GLYPH_WIDTH > w.info.width {
                spec_newline(w)
            } else {
                w
            };
            let t = w.info.pixel_offset(at.x, at.y);
            spec_write_char(w, c).bytes[t] == w.info.fg_byte(0)
        }),
{
    lemma_unsupported_is_placeholder(c);
    lemma_placeholder_visible(c);
    let at = if w.x + GLYPH_WIDTH > w.info.width {
        spec_newline(w)
    } else {
        w
    };
    assert(spec_write_char(w, c).bytes == blit(at.info, at.bytes, c, at.x, at.y));
    lemma_blit_pixel(at.info, at.bytes, c, at.x, at.y, at.x, at.y, 0);
}

} // verus!
