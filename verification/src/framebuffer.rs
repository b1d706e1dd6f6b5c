//! The framebuffer model: geometry and pixel-format metadata, and the
//! byte-level meaning of the three operations the writer performs on video
//! memory — clearing it, painting one foreground pixel, and shifting the
//! visible region up by one glyph row.
//!
//! A framebuffer is a byte sequence. Pixel `(x, y)` starts at byte
//! `y * stride + x * bytes_per_pixel`; the stride may exceed
//! `width * bytes_per_pixel`, in which case the bytes past the last pixel of
//! a scan line are padding and are never touched.

use vstd::arithmetic::mul::lemma_mul_inequality;
use vstd::prelude::*;

use crate::font::GLYPH_HEIGHT;
use crate::font::GLYPH_WIDTH;
use crate::font::LETTER_SPACING;
use crate::font::glyph_on;

verus! {

/// Byte layout of one pixel.
#[derive(Clone, Copy, Debug, PartialEq, Eq, Structural)]
pub enum PixelFormat {
    /// One byte each for red, green and blue, in that order.
    Rgb,
    /// One byte each for blue, green and red, in that order.
    Bgr,
    /// A single luminance byte.
    Grayscale,
}

/// The byte every pixel of a cleared framebuffer holds.
pub const BACKGROUND: u8 = 0x00;

/// Red channel of the foreground colour.
pub const FOREGROUND_RED: u8 = 0xff;

/// Green channel of the foreground colour.
pub const FOREGROUND_GREEN: u8 = 0xc8;

/// Blue channel of the foreground colour.
pub const FOREGROUND_BLUE: u8 = 0x32;

/// Luminance byte of the foreground colour on a grayscale framebuffer.
pub const FOREGROUND_GRAY: u8 = 0xc8;

/// Geometry and format of a framebuffer, fixed for the life of the writer.
#[derive(Clone, Copy, Debug, PartialEq, Eq, Structural)]
pub struct FrameBufferInfo {
    /// Visible width in pixels.
    pub width: usize,
    /// Visible height in pixels.
    pub height: usize,
    /// Bytes per scan line; at least `width * bytes_per_pixel`.
    pub stride: usize,
    /// Bytes occupied by one pixel.
    pub bytes_per_pixel: usize,
    /// How those bytes encode the pixel's colour.
    pub pixel_format: PixelFormat,
}

impl FrameBufferInfo {
    /// A descriptor the writer can work with: at least one glyph fits,
    /// every pixel has at least one byte (three for the colour formats),
    /// scan lines do not overlap, and the visible region is addressable.
    pub open spec fn wf(self) -> bool {
        &&& GLYPH_WIDTH <= self.width
        &&& GLYPH_HEIGHT <= self.height
        &&& 1 <= self.bytes_per_pixel
        &&& (!(self.pixel_format is Grayscale) ==> 3 <= self.bytes_per_pixel)
        &&& self.width * self.bytes_per_pixel <= self.stride
        &&& self.height * self.stride <= usize::MAX
    }

    /// Bytes of the visible region: everything the writer may touch.
    pub open spec fn visible_len(self) -> int {
        self.height * self.stride
    }

    /// Byte offset at which pixel `(x, y)` starts.
    pub open spec fn pixel_offset(self, x: int, y: int) -> int {
        y * self.stride + x * self.bytes_per_pixel
    }

    /// The `k`-th byte of a pixel painted in the foreground colour.
    pub open spec fn fg_byte(self, k: int) -> u8
        recommends
            0 <= k < self.bytes_per_pixel,
    {
        match self.pixel_format {
            PixelFormat::Rgb => if k == 0 {
                FOREGROUND_RED
            } else if k == 1 {
                FOREGROUND_GREEN
            } else if k == 2 {
                FOREGROUND_BLUE
            } else {
                BACKGROUND
            },
            PixelFormat::Bgr => if k == 0 {
                FOREGROUND_BLUE
            } else if k == 1 {
                FOREGROUND_GREEN
            } else if k == 2 {
                FOREGROUND_RED
            } else {
                BACKGROUND
            },
            PixelFormat::Grayscale => if k == 0 {
                FOREGROUND_GRAY
            } else {
                BACKGROUND
            },
        }
    }
}

/// The buffer with its whole visible region set to the background byte.
pub open spec fn cleared(info: FrameBufferInfo, bytes: Seq<u8>) -> Seq<u8>
    recommends
        info.wf(),
        bytes.len() >= info.visible_len(),
{
    Seq::new(
        bytes.len(),
        |i: int|
            if i < info.visible_len() {
                BACKGROUND
            } else {
                bytes[i]
            },
    )
}

/// The buffer with pixel `(x, y)` painted in the foreground colour.
pub open spec fn painted(info: FrameBufferInfo, bytes: Seq<u8>, x: int, y: int) -> Seq<u8>
    recommends
        info.wf(),
        bytes.len() >= info.visible_len(),
        0 <= x < info.width,
        0 <= y < info.height,
{
    let off = info.pixel_offset(x, y);
    Seq::new(
        bytes.len(),
        |i: int|
            if off <= i < off + info.bytes_per_pixel {
                info.fg_byte(i - off)
            } else {
                bytes[i]
            },
    )
}

/// The buffer after the first `n` pixels of the glyph for `c`, taken in
/// row-major order, have been painted at top-left corner `(px, py)`. Only the
/// set pixels of the glyph are painted; the rest of the cell keeps its
/// previous contents. `blit` is this with all 64 pixels done.
pub open spec fn blit_upto(
    info: FrameBufferInfo,
    bytes: Seq<u8>,
    c: char,
    px: int,
    py: int,
    n: int,
) -> Seq<u8>
    recommends
        info.wf(),
        bytes.len() >= info.visible_len(),
        0 <= px,
        px + GLYPH_WIDTH <= info.width,
        0 <= py,
        py + GLYPH_HEIGHT <= info.height,
        0 <= n <= GLYPH_WIDTH * GLYPH_HEIGHT,
    decreases n,
{
    if n <= 0 {
        bytes
    } else {
        let prev = blit_upto(info, bytes, c, px, py, n - 1);
        let row = (n - 1) / (GLYPH_WIDTH as int);
        let col = (n - 1) % (GLYPH_WIDTH as int);
        if glyph_on(c, row, col) {
            painted(info, prev, px + col, py + row)
        } else {
            prev
        }
    }
}

/// The buffer with the glyph for `c` drawn at top-left corner `(px, py)`.
pub open spec fn blit(info: FrameBufferInfo, bytes: Seq<u8>, c: char, px: int, py: int) -> Seq<
    u8,
> {
    blit_upto(info, bytes, c, px, py, GLYPH_WIDTH * GLYPH_HEIGHT)
}

/// The buffer with the visible region shifted up by one glyph row and the
/// freed bottom rows cleared to the background byte.
pub open spec fn scrolled(info: FrameBufferInfo, bytes: Seq<u8>) -> Seq<u8>
    recommends
        info.wf(),
        bytes.len() >= info.visible_len(),
{
    let shift = GLYPH_HEIGHT * info.stride;
    Seq::new(
        bytes.len(),
        |i: int|
            if i < info.visible_len() - shift {
                bytes[i + shift]
            } else if i < info.visible_len() {
                BACKGROUND
            } else {
                bytes[i]
            },
    )
}

/// Machine-limit headroom that `wf` leaves around the geometry: the cursor
/// and scroll arithmetic of the writer cannot overflow a `usize`.
pub proof fn lemma_headroom(info: FrameBufferInfo)
    requires
        info.wf(),
    ensures
        info.width <= info.stride,
        GLYPH_WIDTH <= info.stride,
        GLYPH_HEIGHT * info.stride <= info.visible_len(),
        info.width + GLYPH_WIDTH + LETTER_SPACING <= usize::MAX,
        info.height + GLYPH_HEIGHT <= usize::MAX,
{
    lemma_mul_inequality(1, info.bytes_per_pixel as int, info.width as int);
    vstd::arithmetic::mul::lemma_mul_is_commutative(
        info.bytes_per_pixel as int,
        info.width as int,
    );
    lemma_mul_inequality(GLYPH_HEIGHT as int, info.height as int, info.stride as int);
    lemma_mul_inequality(GLYPH_WIDTH as int, info.width as int, info.bytes_per_pixel as int);
    vstd::arithmetic::mul::lemma_mul_left_inequality(
        GLYPH_WIDTH as int,
        1,
        info.bytes_per_pixel as int,
    );
    vstd::arithmetic::mul::lemma_mul_left_inequality(
        info.height as int,
        GLYPH_HEIGHT as int,
        info.stride as int,
    );
    vstd::arithmetic::mul::lemma_mul_basics(info.width as int);
    vstd::arithmetic::mul::lemma_mul_basics(GLYPH_WIDTH as int);
}

/// Blitting never changes the length of the buffer.
pub proof fn lemma_blit_upto_len(
    info: FrameBufferInfo,
    bytes: Seq<u8>,
    c: char,
    px: int,
    py: int,
    n: int,
)
    ensures
        blit_upto(info, bytes, c, px, py, n).len() == bytes.len(),
    decreases n,
{
    if n > 0 {
        lemma_blit_upto_len(info, bytes, c, px, py, n - 1);
    }
}

/// What blitting the first `n` glyph pixels leaves in any one byte of any
/// pixel: the foreground byte where an already-painted glyph pixel covers it,
/// and the original byte everywhere else.
pub proof fn lemma_blit_upto_pixel(
    info: FrameBufferInfo,
    bytes: Seq<u8>,
    c: char,
    px: int,
    py: int,
    x: int,
    y: int,
    k: int,
    n: int,
)
    requires
        info.wf(),
        bytes.len() >= info.visible_len(),
        0 <= px,
        px + GLYPH_WIDTH <= info.width,
        0 <= py,
        py + GLYPH_HEIGHT <= info.height,
        0 <= x < info.width,
        0 <= y < info.height,
        0 <= k < info.bytes_per_pixel,
        0 <= n <= GLYPH_WIDTH * GLYPH_HEIGHT,
    ensures
        ({
            let t = info.pixel_offset(x, y) + k;
            blit_upto(info, bytes, c, px, py, n)[t] == if px <= x < px + GLYPH_WIDTH && py <= y
                < py + GLYPH_HEIGHT && (y - py) * GLYPH_WIDTH + (x - px) < n && glyph_on(
                c,
                y - py,
                x - px,
            ) {
                info.fg_byte(k)
            } else {
                bytes[t]
            }
        }),
    decreases n,
{
    lemma_pixel_in_visible(info, x, y);
    let t = info.pixel_offset(x, y) + k;
    if n > 0 {
        lemma_blit_upto_pixel(info, bytes, c, px, py, x, y, k, n - 1);
        lemma_blit_upto_len(info, bytes, c, px, py, n - 1);
        let prev = blit_upto(info, bytes, c, px, py, n - 1);
        let row = (n - 1) / (GLYPH_WIDTH as int);
        let col = (n - 1) % (GLYPH_WIDTH as int);
        vstd::arithmetic::div_mod::lemma_fundamental_div_mod(n - 1, GLYPH_WIDTH as int);
        vstd::arithmetic::div_mod::lemma_mod_division_less_than_divisor(
            n - 1,
            GLYPH_WIDTH as int,
        );
        assert(n - 1 == row * (GLYPH_WIDTH as int) + col);
        assert(0 <= row < GLYPH_HEIGHT);
        let gx = px + col;
        let gy = py + row;
        if glyph_on(c, row, col) {
            lemma_pixel_in_visible(info, gx, gy);
            if x == gx && y == gy {
                assert((y - py) * GLYPH_WIDTH + (x - px) == n - 1);
            } else {
                lemma_pixel_ranges_disjoint(info, x, y, gx, gy);
                assert(!(px <= x < px + GLYPH_WIDTH && py <= y < py + GLYPH_HEIGHT && (y - py)
                    * GLYPH_WIDTH + (x - px) == n - 1));
            }
        } else {
            if px <= x < px + GLYPH_WIDTH && py <= y < py + GLYPH_HEIGHT && (y - py) * GLYPH_WIDTH
                + (x - px) == n - 1 {
                assert(y - py == row && x - px == col);
            }
        }
    }
}

/// What a finished blit leaves in any one byte of any pixel.
pub proof fn lemma_blit_pixel(
    info: FrameBufferInfo,
    bytes: Seq<u8>,
    c: char,
    px: int,
    py: int,
    x: int,
    y: int,
    k: int,
)
    requires
        info.wf(),
        bytes.len() >= info.visible_len(),
        0 <= px,
        px + GLYPH_WIDTH <= info.width,
        0 <= py,
        py + GLYPH_HEIGHT <= info.height,
        0 <= x < info.width,
        0 <= y < info.height,
        0 <= k < info.bytes_per_pixel,
    ensures
        ({
            let t = info.pixel_offset(x, y) + k;
            blit(info, bytes, c, px, py)[t] == if px <= x < px + GLYPH_WIDTH && py <= y < py
                + GLYPH_HEIGHT && glyph_on(c, y - py, x - px) {
                info.fg_byte(k)
            } else {
                bytes[t]
            }
        }),
{
    lemma_blit_upto_pixel(info, bytes, c, px, py, x, y, k, GLYPH_WIDTH * GLYPH_HEIGHT);
}

/// The bytes of pixel `(x, y)` lie inside the visible region.
pub proof fn lemma_pixel_in_visible(info: FrameBufferInfo, x: int, y: int)
    requires
        info.wf(),
        0 <= x < info.width,
        0 <= y < info.height,
    ensures
        0 <= info.pixel_offset(x, y),
        info.pixel_offset(x, y) + info.bytes_per_pixel <= (y + 1) * info.stride,
        (y + 1) * info.stride <= info.visible_len(),
{
    lemma_mul_inequality(x + 1, info.width as int, info.bytes_per_pixel as int);
    lemma_mul_inequality(y + 1, info.height as int, info.stride as int);
    vstd::arithmetic::mul::lemma_mul_is_distributive_add_other_way(
        info.stride as int,
        y,
        1,
    );
    vstd::arithmetic::mul::lemma_mul_is_distributive_add_other_way(
        info.bytes_per_pixel as int,
        x,
        1,
    );
    vstd::arithmetic::mul::lemma_mul_nonnegative(y, info.stride as int);
    vstd::arithmetic::mul::lemma_mul_nonnegative(x, info.bytes_per_pixel as int);
}

/// Distinct pixels occupy disjoint byte ranges.
pub proof fn lemma_pixel_ranges_disjoint(info: FrameBufferInfo, x1: int, y1: int, x2: int, y2: int)
    requires
        info.wf(),
        0 <= x1 < info.width,
        0 <= y1 < info.height,
        0 <= x2 < info.width,
        0 <= y2 < info.height,
        (x1, y1) != (x2, y2),
    ensures
        info.pixel_offset(x1, y1) + info.bytes_per_pixel <= info.pixel_offset(x2, y2)
            || info.pixel_offset(x2, y2) + info.bytes_per_pixel <= info.pixel_offset(x1, y1),
{
    if y1 == y2 {
        if x1 < x2 {
            lemma_mul_inequality(x1 + 1, x2, info.bytes_per_pixel as int);
            vstd::arithmetic::mul::lemma_mul_is_distributive_add_other_way(
                info.bytes_per_pixel as int,
                x1,
                1,
            );
        } else {
            lemma_mul_inequality(x2 + 1, x1, info.bytes_per_pixel as int);
            vstd::arithmetic::mul::lemma_mul_is_distributive_add_other_way(
                info.bytes_per_pixel as int,
                x2,
                1,
            );
        }
    } else if y1 < y2 {
        lemma_pixel_in_visible(info, x1, y1);
        lemma_mul_inequality(y1 + 1, y2, info.stride as int);
        vstd::arithmetic::mul::lemma_mul_nonnegative(x2, info.bytes_per_pixel as int);
    } else {
        lemma_pixel_in_visible(info, x2, y2);
        lemma_mul_inequality(y2 + 1, y1, info.stride as int);
        vstd::arithmetic::mul::lemma_mul_nonnegative(x1, info.bytes_per_pixel as int);
    }
}

} // verus!
