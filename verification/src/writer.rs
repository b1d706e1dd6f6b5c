//! The framebuffer text writer.
//!
//! [`FrameBufferWriter`] owns the pixel buffer and its descriptor, plus the
//! cursor, and renders characters one glyph cell at a time: printable code
//! points are blitted at the cursor, `'\n'` starts a new line, `'\r'` returns
//! to the start of the current one. A glyph that would cross the right edge
//! wraps to a new line first, and a new line that would cross the bottom
//! scrolls the buffer up by one glyph row instead.
//!
//! Every public method is specified against the pure transition functions
//! [`spec_write_char`] and [`spec_write_str`], so the byte contents of the
//! buffer after any sequence of writes is pinned down exactly.

use vstd::prelude::*;

use crate::font::GLYPH_HEIGHT;
use crate::font::GLYPH_WIDTH;
use crate::font::LETTER_SPACING;
use crate::font::glyph_pixel;
use crate::framebuffer::BACKGROUND;
use crate::framebuffer::FOREGROUND_BLUE;
use crate::framebuffer::FOREGROUND_GRAY;
use crate::framebuffer::FOREGROUND_GREEN;
use crate::framebuffer::FOREGROUND_RED;
use crate::framebuffer::FrameBufferInfo;
use crate::framebuffer::PixelFormat;
use crate::framebuffer::blit;
use crate::framebuffer::blit_upto;
use crate::framebuffer::cleared;
use crate::framebuffer::lemma_pixel_in_visible;
use crate::framebuffer::painted;
use crate::framebuffer::scrolled;

verus! {

/// The mathematical state of a writer: the bytes of its buffer, its fixed
/// descriptor, and the cursor position in pixels.
pub struct WriterView {
    /// Contents of the whole buffer.
    pub bytes: Seq<u8>,
    /// Geometry and format, fixed at construction.
    pub info: FrameBufferInfo,
    /// Horizontal cursor position: the left edge of the next glyph cell.
    pub x: int,
    /// Vertical cursor position: the top edge of the current text line.
    pub y: int,
}

impl WriterView {
    /// The writer's invariant: a usable descriptor, a buffer that covers the
    /// visible region, and a cursor from which a glyph can always be rendered
    /// after at most one wrap — `x` may rest just past the right edge until
    /// the next glyph wraps it, and `y` always leaves room for one line.
    pub open spec fn wf(self) -> bool {
        &&& self.info.wf()
        &&& self.info.visible_len() <= self.bytes.len() <= usize::MAX
        &&& 0 <= self.x <= self.info.width + LETTER_SPACING
        &&& 0 <= self.y
        &&& self.y + GLYPH_HEIGHT <= self.info.height
    }
}

/// Cursor to the start of the next line; scrolls when that line would cross
/// the bottom edge, so that `y` always keeps one line of room.
pub open spec fn spec_newline(w: WriterView) -> WriterView
    recommends
        w.wf(),
{
    let advanced = w.y + GLYPH_HEIGHT;
    if advanced + GLYPH_HEIGHT > w.info.height {
        WriterView {
            bytes: scrolled(w.info, w.bytes),
            info: w.info,
            x: 0,
            y: w.info.height - GLYPH_HEIGHT,
        }
    } else {
        WriterView { x: 0, y: advanced, ..w }
    }
}

/// Cursor back to the start of the current line; pixels untouched.
pub open spec fn spec_carriage_return(w: WriterView) -> WriterView {
    WriterView { x: 0, ..w }
}

/// A printable code point: wrap first if the glyph cell would cross the
/// right edge, then blit the glyph at the cursor and advance.
pub open spec fn spec_put_glyph(w: WriterView, c: char) -> WriterView
    recommends
        w.wf(),
{
    let at = if w.x + GLYPH_WIDTH > w.info.width {
        spec_newline(w)
    } else {
        w
    };
    WriterView {
        bytes: blit(at.info, at.bytes, c, at.x, at.y),
        info: at.info,
        x: at.x + GLYPH_WIDTH + LETTER_SPACING,
        y: at.y,
    }
}

/// What one `write_char` call does to the writer's state.
pub open spec fn spec_write_char(w: WriterView, c: char) -> WriterView
    recommends
        w.wf(),
{
    if c == '\n' {
        spec_newline(w)
    } else if c == '\r' {
        spec_carriage_return(w)
    } else {
        spec_put_glyph(w, c)
    }
}

/// What writing a whole character sequence does: `spec_write_char` folded
/// over the sequence from the left.
pub open spec fn spec_write_str(w: WriterView, s: Seq<char>) -> WriterView
    recommends
        w.wf(),
    decreases s.len(),
{
    if s.len() == 0 {
        w
    } else {
        spec_write_str(spec_write_char(w, s[0]), s.drop_first())
    }
}

/// The clamped cursor position `change_cursor_position` moves to: the
/// requested coordinates, pulled back just enough that a full glyph cell
/// still fits to their lower right.
pub open spec fn spec_clamp_cursor(info: FrameBufferInfo, x: int, y: int) -> (int, int)
    recommends
        info.wf(),
{
    (
        if x + GLYPH_WIDTH <= info.width {
            x
        } else {
            info.width - GLYPH_WIDTH
        },
        if y + GLYPH_HEIGHT <= info.height {
            y
        } else {
            info.height - GLYPH_HEIGHT
        },
    )
}

/// `spec_write_char` preserves the writer invariant.
pub proof fn lemma_write_char_wf(w: WriterView, c: char)
    requires
        w.wf(),
    ensures
        spec_write_char(w, c).wf(),
        spec_write_char(w, c).info == w.info,
        spec_write_char(w, c).bytes.len() == w.bytes.len(),
{
    let at = if w.x + GLYPH_WIDTH > w.info.width {
        spec_newline(w)
    } else {
        w
    };
    crate::framebuffer::lemma_blit_upto_len(
        at.info,
        at.bytes,
        c,
        at.x,
        at.y,
        GLYPH_WIDTH * GLYPH_HEIGHT,
    );
}

/// `spec_write_str` preserves the writer invariant.
pub proof fn lemma_write_str_wf(w: WriterView, s: Seq<char>)
    requires
        w.wf(),
    ensures
        spec_write_str(w, s).wf(),
        spec_write_str(w, s).info == w.info,
        spec_write_str(w, s).bytes.len() == w.bytes.len(),
    decreases s.len(),
{
    if s.len() > 0 {
        lemma_write_char_wf(w, s[0]);
        lemma_write_str_wf(spec_write_char(w, s[0]), s.drop_first());
    }
}

/// Writing a sequence and then one more character is writing the extended
/// sequence.
pub proof fn lemma_write_str_snoc(w: WriterView, s: Seq<char>, c: char)
    requires
        w.wf(),
    ensures
        spec_write_char(spec_write_str(w, s), c) == spec_write_str(w, s.push(c)),
    decreases s.len(),
{
    assert(s.push(c)[0] == if s.len() == 0 { c } else { s[0] });
    assert(spec_write_str(w, s.push(c)) == spec_write_str(
        spec_write_char(w, s.push(c)[0]),
        s.push(c).drop_first(),
    ));
    if s.len() == 0 {
        assert(s.push(c).drop_first() =~= s);
        assert(spec_write_str(spec_write_char(w, c), s) == spec_write_char(w, c));
    } else {
        lemma_write_char_wf(w, s[0]);
        lemma_write_str_snoc(spec_write_char(w, s[0]), s.drop_first(), c);
        assert(s.push(c).drop_first() =~= s.drop_first().push(c));
        assert(spec_write_str(w, s) == spec_write_str(
            spec_write_char(w, s[0]),
            s.drop_first(),
        ));
    }
}

/// A text writer over a raw framebuffer.
pub struct FrameBufferWriter {
    buf: Vec<u8>,
    info: FrameBufferInfo,
    x_pos: usize,
    y_pos: usize,
}

impl View for FrameBufferWriter {
    type V = WriterView;

    closed spec fn view(&self) -> WriterView {
        WriterView { bytes: self.buf@, info: self.info, x: self.x_pos as int, y: self.y_pos as int }
    }
}

impl FrameBufferWriter {
    /// Takes ownership of the pixel buffer, clears its visible region to the
    /// background colour, and places the cursor at the top-left corner.
    pub fn new(buffer: Vec<u8>, info: FrameBufferInfo) -> (w: Self)
        requires
            info.wf(),
            buffer@.len() >= info.visible_len(),
        ensures
            w@.wf(),
            w@.info == info,
            w@.x == 0,
            w@.y == 0,
            w@.bytes == cleared(info, buffer@),
    {
        let mut w = FrameBufferWriter { buf: buffer, info, x_pos: 0, y_pos: 0 };
        let limit: usize = info.height * info.stride;
        let buffer_len: usize = w.buf.len();
        let ghost orig = w.buf@;
        proof {
            assert(orig.len() == buffer_len <= usize::MAX);
        }
        let mut i: usize = 0;
        while i < limit
            invariant
                info.wf(),
                w.info == info,
                w.x_pos == 0,
                w.y_pos == 0,
                limit == info.visible_len(),
                i <= limit,
                w.buf@.len() == orig.len() >= limit,
                forall|j: int| 0 <= j < i ==> w.buf@[j] == BACKGROUND,
                forall|j: int| i <= j < orig.len() ==> w.buf@[j] == orig[j],
            decreases limit - i,
        {
            w.buf[i] = BACKGROUND;
            i = i + 1;
        }
        proof {
            assert(w.buf@ =~= cleared(info, orig));
        }
        w
    }

    /// The descriptor this writer renders against.
    pub fn info(&self) -> (info: FrameBufferInfo)
        ensures
            info == self@.info,
    {
        self.info
    }

    /// Horizontal cursor position in pixels.
    pub fn cursor_x(&self) -> (x: usize)
        ensures
            x == self@.x,
    {
        self.x_pos
    }

    /// Vertical cursor position in pixels.
    pub fn cursor_y(&self) -> (y: usize)
        ensures
            y == self@.y,
    {
        self.y_pos
    }

    /// One byte of the buffer, for inspecting rendered output.
    pub fn byte_at(&self, i: usize) -> (b: u8)
        requires
            i < self@.bytes.len(),
        ensures
            b == self@.bytes[i as int],
    {
        self.buf[i]
    }

    /// Paints pixel `(x, y)` in the foreground colour: writes the bytes the
    /// pixel format prescribes and zeroes any padding bytes of the pixel.
    fn paint_pixel(&mut self, x: usize, y: usize)
        requires
            old(self)@.wf(),
            x < old(self)@.info.width,
            y < old(self)@.info.height,
        ensures
            final(self)@.wf(),
            final(self)@.bytes == painted(old(self)@.info, old(self)@.bytes, x as int, y as int),
            final(self)@.info == old(self)@.info,
            final(self)@.x == old(self)@.x,
            final(self)@.y == old(self)@.y,
    {
        proof {
            lemma_pixel_in_visible(self.info, x as int, y as int);
        }
        let off: usize = y * self.info.stride + x * self.info.bytes_per_pixel;
        let bpp: usize = self.info.bytes_per_pixel;
        let ghost orig = self.buf@;
        let mut k: usize;
        match self.info.pixel_format {
            PixelFormat::Rgb => {
                self.buf[off] = FOREGROUND_RED;
                self.buf[off + 1] = FOREGROUND_GREEN;
                self.buf[off + 2] = FOREGROUND_BLUE;
                k = 3;
            },
            PixelFormat::Bgr => {
                self.buf[off] = FOREGROUND_BLUE;
                self.buf[off + 1] = FOREGROUND_GREEN;
                self.buf[off + 2] = FOREGROUND_RED;
                k = 3;
            },
            PixelFormat::Grayscale => {
                self.buf[off] = FOREGROUND_GRAY;
                k = 1;
            },
        }
        while k < bpp
            invariant
                self@.wf(),
                self@.info == old(self)@.info,
                self@.x == old(self)@.x,
                self@.y == old(self)@.y,
                off + bpp <= self.buf@.len(),
                bpp == self.info.bytes_per_pixel,
                1 <= k <= bpp,
                (self.info.pixel_format is Grayscale) || 3 <= k,
                self.buf@.len() == orig.len(),
                forall|j: int|
                    off <= j < off + k ==> self.buf@[j] == self.info.fg_byte(j - off),
                forall|j: int|
                    0 <= j < orig.len() && !(off <= j < off + k) ==> self.buf@[j] == orig[j],
            decreases bpp - k,
        {
            self.buf[off + k] = BACKGROUND;
            k = k + 1;
        }
        proof {
            assert(self.buf@ =~= painted(old(self)@.info, orig, x as int, y as int));
        }
    }

    /// Shifts the visible region up by one glyph row and clears the freed
    /// bottom rows; the cursor stays where it is.
    fn scroll(&mut self)
        requires
            old(self)@.wf(),
        ensures
            final(self)@.wf(),
            final(self)@.bytes == scrolled(old(self)@.info, old(self)@.bytes),
            final(self)@.info == old(self)@.info,
            final(self)@.x == old(self)@.x,
            final(self)@.y == old(self)@.y,
    {
        proof {
            crate::framebuffer::lemma_headroom(self.info);
        }
        let stride: usize = self.info.stride;
        let shift: usize = GLYPH_HEIGHT * stride;
        let vis: usize = self.info.height * stride;
        let keep: usize = vis - shift;
        let ghost orig = self.buf@;
        let mut i: usize = 0;
        while i < keep
            invariant
                old(self)@.wf(),
                self.info == old(self)@.info,
                self.x_pos == old(self)@.x,
                self.y_pos == old(self)@.y,
                stride == self.info.stride,
                shift == GLYPH_HEIGHT * stride,
                vis == self.info.visible_len(),
                keep == vis - shift,
                i <= keep,
                self.buf@.len() == orig.len(),
                orig.len() >= vis,
                forall|j: int| 0 <= j < i ==> self.buf@[j] == orig[j + shift],
                forall|j: int| i <= j < orig.len() ==> self.buf@[j] == orig[j],
            decreases keep - i,
        {
            let b = self.buf[i + shift];
            self.buf[i] = b;
            i = i + 1;
        }
        let mut k: usize = keep;
        while k < vis
            invariant
                old(self)@.wf(),
                self.info == old(self)@.info,
                self.x_pos == old(self)@.x,
                self.y_pos == old(self)@.y,
                stride == self.info.stride,
                shift == GLYPH_HEIGHT * stride,
                vis == self.info.visible_len(),
                keep == vis - shift,
                keep <= k <= vis,
                self.buf@.len() == orig.len(),
                orig.len() >= vis,
                forall|j: int| 0 <= j < keep ==> self.buf@[j] == orig[j + shift],
                forall|j: int| keep <= j < k ==> self.buf@[j] == BACKGROUND,
                forall|j: int| k <= j < orig.len() ==> self.buf@[j] == orig[j],
            decreases vis - k,
        {
            self.buf[k] = BACKGROUND;
            k = k + 1;
        }
        proof {
            assert(self.buf@ =~= scrolled(old(self)@.info, orig));
        }
    }

    /// Moves the cursor to the start of the next line, scrolling first if
    /// that line would cross the bottom edge.
    fn newline(&mut self)
        requires
            old(self)@.wf(),
        ensures
            final(self)@.wf(),
            final(self)@ == spec_newline(old(self)@),
    {
        proof {
            crate::framebuffer::lemma_headroom(self.info);
        }
        self.x_pos = 0;
        let advanced: usize = self.y_pos + GLYPH_HEIGHT;
        if advanced + GLYPH_HEIGHT > self.info.height {
            self.scroll();
            self.y_pos = self.info.height - GLYPH_HEIGHT;
        } else {
            self.y_pos = advanced;
        }
    }

    /// Blits the glyph for `c` with its top-left corner at the cursor, then
    /// advances the cursor by one glyph cell.
    fn draw_glyph(&mut self, c: char)
        requires
            old(self)@.wf(),
            old(self)@.x + GLYPH_WIDTH <= old(self)@.info.width,
        ensures
            final(self)@.wf(),
            final(self)@.bytes == blit(
                old(self)@.info,
                old(self)@.bytes,
                c,
                old(self)@.x,
                old(self)@.y,
            ),
            final(self)@.info == old(self)@.info,
            final(self)@.x == old(self)@.x + GLYPH_WIDTH + LETTER_SPACING,
            final(self)@.y == old(self)@.y,
    {
        let ghost orig = self.buf@;
        let ghost px = self.x_pos as int;
        let ghost py = self.y_pos as int;
        let mut row: usize = 0;
        while row < GLYPH_HEIGHT
            invariant
                old(self)@.wf(),
                self.info == old(self)@.info,
                self.x_pos == old(self)@.x,
                self.y_pos == old(self)@.y,
                px == old(self)@.x,
                py == old(self)@.y,
                px + GLYPH_WIDTH <= self.info.width,
                row <= GLYPH_HEIGHT,
                self.buf@.len() == orig.len(),
                self@.wf(),
                self.buf@ == blit_upto(self.info, orig, c, px, py, row * (GLYPH_WIDTH as int)),
            decreases GLYPH_HEIGHT - row,
        {
            let mut col: usize = 0;
            while col < GLYPH_WIDTH
                invariant
                    old(self)@.wf(),
                    self.info == old(self)@.info,
                    self.x_pos == old(self)@.x,
                    self.y_pos == old(self)@.y,
                    px == old(self)@.x,
                    py == old(self)@.y,
                    px + GLYPH_WIDTH <= self.info.width,
                    row < GLYPH_HEIGHT,
                    col <= GLYPH_WIDTH,
                    self.buf@.len() == orig.len(),
                    self@.wf(),
                    self.buf@ == blit_upto(
                        self.info,
                        orig,
                        c,
                        px,
                        py,
                        row * (GLYPH_WIDTH as int) + col,
                    ),
                decreases GLYPH_WIDTH - col,
            {
                let ghost n = row * (GLYPH_WIDTH as int) + col + 1;
                proof {
                    vstd::arithmetic::div_mod::lemma_fundamental_div_mod_converse(
                        n - 1,
                        GLYPH_WIDTH as int,
                        row as int,
                        col as int,
                    );
                }
                if glyph_pixel(c, row, col) {
                    let gx = self.x_pos + col;
                    let gy = self.y_pos + row;
                    self.paint_pixel(gx, gy);
                }
                proof {
                    assert(self.buf@ == blit_upto(self.info, orig, c, px, py, n));
                }
                col = col + 1;
            }
            row = row + 1;
        }
        proof {
            crate::framebuffer::lemma_headroom(self.info);
            assert(GLYPH_HEIGHT * (GLYPH_WIDTH as int) == GLYPH_WIDTH * GLYPH_HEIGHT);
        }
        self.x_pos = self.x_pos + GLYPH_WIDTH + LETTER_SPACING;
    }

    /// Renders one character at the cursor: `'\n'` starts a new line, `'\r'`
    /// returns to the start of the current one, anything else draws a glyph,
    /// wrapping and scrolling first when the cell would not fit.
    pub fn write_char(&mut self, c: char)
        requires
            old(self)@.wf(),
        ensures
            final(self)@.wf(),
            final(self)@ == spec_write_char(old(self)@, c),
    {
        proof {
            crate::framebuffer::lemma_headroom(self.info);
        }
        if c == '\n' {
            self.newline();
        } else if c == '\r' {
            self.x_pos = 0;
        } else {
            if self.x_pos + GLYPH_WIDTH > self.info.width {
                self.newline();
            }
            self.draw_glyph(c);
        }
    }

    /// Renders every character of `s` in order; unsupported code points
    /// degrade to the placeholder glyph and never stop the write.
    pub fn write_string(&mut self, s: &str)
        requires
            old(self)@.wf(),
        ensures
            final(self)@.wf(),
            final(self)@ == spec_write_str(old(self)@, s@),
    {
        let n = s.unicode_len();
        let mut i: usize = 0;
        while i < n
            invariant
                old(self)@.wf(),
                n == s@.len(),
                i <= n,
                self@.wf(),
                self@ == spec_write_str(old(self)@, s@.take(i as int)),
            decreases n - i,
        {
            let c = s.get_char(i);
            self.write_char(c);
            proof {
                lemma_write_str_snoc(old(self)@, s@.take(i as int), c);
                assert(s@.take(i as int).push(c) =~= s@.take(i + 1 as int));
            }
            i = i + 1;
        }
        proof {
            assert(s@.take(n as int) =~= s@);
        }
    }

    /// Moves the cursor to `(x, y)`, clamped so that a whole glyph cell still
    /// fits to its lower right; the pixels are untouched.
    pub fn change_cursor_position(&mut self, x: usize, y: usize)
        requires
            old(self)@.wf(),
        ensures
            final(self)@.wf(),
            final(self)@.bytes == old(self)@.bytes,
            final(self)@.info == old(self)@.info,
            (final(self)@.x, final(self)@.y) == spec_clamp_cursor(
                old(self)@.info,
                x as int,
                y as int,
            ),
    {
        self.x_pos = if x <= self.info.width - GLYPH_WIDTH {
            x
        } else {
            self.info.width - GLYPH_WIDTH
        };
        self.y_pos = if y <= self.info.height - GLYPH_HEIGHT {
            y
        } else {
            self.info.height - GLYPH_HEIGHT
        };
    }
}

} // verus!
