//! Painting the battery glyph.
use vstd::prelude::*;

use crate::color::{
    byte0, byte1, byte2, colorref_channels, colorref_pixel, colorref_rgb, join_bytes,
    pixel_channels, pixel_of, pixel_of_colorref,
};
use crate::layout::{fill_width, filled, law_layout_fits, layout_of, BatteryGlyph, Layout};

verus! {

/// One channel of the outline: the text colour `fg` over `bg` at an opacity of
/// 85%, so the fill inside reads as the solid part.
pub open spec fn outline_channel(fg: int, bg: int) -> int {
    (15 * bg + 85 * fg + 50) / 100
}

/// The outline's pixel, for COLORREFs `fg` over `bg`.
pub open spec fn outline_pixel(fg: u32, bg: u32) -> u32 {
    pixel_of(
        outline_channel(byte0(fg), byte0(bg)),
        outline_channel(byte1(fg), byte1(bg)),
        outline_channel(byte2(fg), byte2(bg)),
    )
}

impl Layout {
    /// Whether a pixel is on the outline of the battery's body.
    pub open spec fn on_outline(self, x: int, y: int) -> bool {
        &&& self.body_x <= x < self.body_x + self.body_w
        &&& self.body_y <= y < self.body_y + self.body_h
        &&& {
            ||| y < self.body_y + self.line
            ||| y >= self.body_y + self.body_h - self.line
            ||| x < self.body_x + self.line
            ||| x >= self.body_x + self.body_w - self.line
        }
    }

    /// Whether a pixel is on the battery's terminal.
    pub open spec fn on_terminal(self, x: int, y: int) -> bool {
        &&& self.body_x + self.body_w <= x < self.body_x + self.body_w + self.line
        &&& self.body_y + self.line <= y < self.body_y + self.body_h - self.line
    }

    /// Whether a pixel is in the filled part of the battery's inside.
    pub open spec fn in_fill(self, percent: Option<u8>, x: int, y: int) -> bool {
        &&& self.body_x + self.line <= x < self.body_x + self.line + filled(
            self.body_w - 2 * self.line,
            percent,
        )
        &&& self.body_y + self.line <= y < self.body_y + self.body_h - self.line
    }
}

/// The pixel that painting the glyph leaves at (x, y), where there was `before`.
pub open spec fn painted(
    l: Layout,
    percent: Option<u8>,
    fg: u32,
    bg: u32,
    x: int,
    y: int,
    before: u32,
) -> u32 {
    if l.in_fill(percent, x, y) {
        pixel_of_colorref(fg)
    } else if l.on_outline(x, y) || l.on_terminal(x, y) {
        outline_pixel(fg, bg)
    } else {
        before
    }
}

fn blended(fg: i32, bg: i32) -> (r: u32)
    requires
        0 <= fg < 256,
        0 <= bg < 256,
    ensures
        r == outline_channel(fg as int, bg as int),
        r < 256,
{
    ((15 * bg + 85 * fg + 50) / 100) as u32
}

/// A position in a row-major icon gives its column and row back.
pub proof fn lemma_position(x: int, y: int, size: int)
    requires
        0 <= x < size,
        0 <= y < size,
    ensures
        0 <= y * size + x < size * size,
        (y * size + x) % size == x,
        (y * size + x) / size == y,
{
    assert(0 <= y * size) by (nonlinear_arith)
        requires
            0 <= y,
            0 < size,
    ;
    assert(y * size + size <= size * size) by (nonlinear_arith)
        requires
            y + 1 <= size,
            0 < size,
    ;
    vstd::arithmetic::div_mod::lemma_fundamental_div_mod_converse(y * size + x, size, y, x);
}

/// A row-major position is that of its column and row.
pub proof fn lemma_column_and_row(p: int, size: int)
    requires
        0 <= p < size * size,
        0 < size,
    ensures
        0 <= p % size < size,
        0 <= p / size < size,
        p == (p / size) * size + p % size,
{
    vstd::arithmetic::div_mod::lemma_fundamental_div_mod(p, size);
    assert(p / size < size) by (nonlinear_arith)
        requires
            0 <= p < size * size,
            0 < size,
    ;
    assert(p / size >= 0) by (nonlinear_arith)
        requires
            0 <= p,
            0 < size,
    ;
    assert(size * (p / size) == (p / size) * size) by (nonlinear_arith);
}

/// Give the pixels of one rectangle a new colour.
fn fill_rect(drawn: &mut [u32], size: i32, x0: i32, x1: i32, y0: i32, y1: i32, px: u32)
    requires
        1 <= size <= 46340,
        old(drawn)@.len() == size * size,
        0 <= x0,
        0 <= y0,
        x0 < x1 && y0 < y1 ==> x1 <= size && y1 <= size,
    ensures
        final(drawn)@.len() == size * size,
        forall|p: int|
            0 <= p < size * size ==> #[trigger] final(drawn)@[p] == (if x0 <= p % (size as int)
                < x1 && y0 <= p / (size as int) < y1 {
                px
            } else {
                old(drawn)@[p]
            }),
{
    let ghost s = size as int;
    let ghost before = drawn@;
    if x0 >= x1 {
        return;
    }
    let mut y: i32 = y0;
    while y < y1
        invariant
            s == size,
            1 <= size <= 46340,
            drawn@.len() == s * s,
            0 <= x0 < x1,
            0 <= y0 <= y,
            y0 < y1 ==> x1 <= size && y1 <= size && y <= y1,
            y0 >= y1 ==> y == y0,
            forall|p: int|
                0 <= p < s * s ==> #[trigger] drawn@[p] == (if x0 <= p % s < x1 && y0 <= p / s < y {
                    px
                } else {
                    before[p]
                }),
        decreases y1 - y,
    {
        let mut x: i32 = x0;
        while x < x1
            invariant
                s == size,
                1 <= size <= 46340,
                drawn@.len() == s * s,
                0 <= x0 <= x <= x1 <= size,
                0 <= y0 <= y < y1 <= size,
                forall|p: int|
                    0 <= p < s * s ==> #[trigger] drawn@[p] == (if x0 <= p % s < x1 && (y0 <= p / s
                        < y || p / s == y && p % s < x) {
                        px
                    } else {
                        before[p]
                    }),
            decreases x1 - x,
        {
            proof {
                lemma_position(x as int, y as int, s);
                assert(s * s <= 46340 * 46340) by (nonlinear_arith)
                    requires
                        1 <= s <= 46340,
                ;
            }
            let ghost here = y * s + x;
            let ghost last = drawn@;
            drawn[(y * size + x) as usize] = px;
            assert forall|p: int| 0 <= p < s * s implies #[trigger] drawn@[p] == (if x0 <= p % s
                < x1 && (y0 <= p / s < y || p / s == y && p % s < x + 1) {
                px
            } else {
                before[p]
            }) by {
                if p != here {
                    assert(drawn@[p] == last[p]);
                    lemma_column_and_row(p, s);
                }
            }
            x += 1;
        }
        assert forall|p: int| 0 <= p < s * s implies #[trigger] drawn@[p] == (if x0 <= p % s < x1
            && y0 <= p / s < y + 1 {
            px
        } else {
            before[p]
        }) by {}
        y += 1;
    }
}

fn smaller(a: i32, b: i32) -> (r: i32)
    ensures
        r == if a <= b {
            a
        } else {
            b
        },
{
    if a <= b {
        a
    } else {
        b
    }
}

fn larger(a: i32, b: i32) -> (r: i32)
    ensures
        r == if a >= b {
            a
        } else {
            b
        },
{
    if a >= b {
        a
    } else {
        b
    }
}

/// Paint the battery glyph into `drawn` (a `size`-px icon's pixels over COLORREF
/// `bg`): the outline and terminal in a fainter `fg`, the inside filled left to
/// right to `percent` in solid `fg`.
pub fn paint_battery(
    drawn: &mut [u32],
    size: i32,
    l: &Layout,
    percent: Option<u8>,
    fg: u32,
    bg: u32,
)
    requires
        1 <= size <= 46340,
        old(drawn)@.len() == size * size,
        l.fits(size as int),
    ensures
        final(drawn)@.len() == size * size,
        forall|p: int|
            0 <= p < size * size ==> #[trigger] final(drawn)@[p] == painted(
                *l,
                percent,
                fg,
                bg,
                p % (size as int),
                p / (size as int),
                old(drawn)@[p],
            ),
{
    let (fg_rgb, bg_rgb) = (colorref_rgb(fg), colorref_rgb(bg));
    let outline = join_bytes(
        blended(fg_rgb[0], bg_rgb[0]),
        blended(fg_rgb[1], bg_rgb[1]),
        blended(fg_rgb[2], bg_rgb[2]),
    );
    let solid = colorref_pixel(fg);
    let (left, right) = (l.body_x, l.body_x + l.body_w);
    let (top, bottom) = (l.body_y, l.body_y + l.body_h);

    fill_rect(drawn, size, left, right, top, smaller(top + l.line, bottom), outline);
    fill_rect(drawn, size, left, right, larger(bottom - l.line, top), bottom, outline);
    fill_rect(drawn, size, left, smaller(left + l.line, right), top, bottom, outline);
    fill_rect(drawn, size, larger(right - l.line, left), right, top, bottom, outline);
    // The terminal.
    fill_rect(drawn, size, right, right + l.line, top + l.line, bottom - l.line, outline);
    let inside: i32 = l.body_w - 2 * l.line;
    proof {
        crate::layout::lemma_filled(inside as int, percent);
    }
    let width: i32 = fill_width(inside, percent);
    fill_rect(
        drawn,
        size,
        left + l.line,
        left + l.line + width,
        top + l.line,
        bottom - l.line,
        solid,
    );
}

/// Painting the glyph changes nothing outside the rows of its body.
pub proof fn law_glyph_stays_in_its_rows(
    l: Layout,
    percent: Option<u8>,
    fg: u32,
    bg: u32,
    x: int,
    y: int,
    before: u32,
)
    requires
        l.line >= 1,
        y < l.body_y || l.body_y + l.body_h <= y,
    ensures
        painted(l, percent, fg, bg, x, y, before) == before,
{
}

/// In every layout, painting the glyph leaves the digits' box as it was.
pub proof fn law_glyph_spares_the_digits(
    size: int,
    glyph: BatteryGlyph,
    percent: Option<u8>,
    fg: u32,
    bg: u32,
    x: int,
    y: int,
    before: u32,
)
    requires
        1 <= size,
        size * 14 <= i32::MAX,
        layout_of(size, glyph).text_top <= y,
        y < layout_of(size, glyph).text_top + layout_of(size, glyph).text_h,
    ensures
        painted(layout_of(size, glyph), percent, fg, bg, x, y, before) == before,
{
    law_layout_fits(size, glyph);
}

// ---------------------------------------------------------------------------
// What is painted where
/// Painting the glyph: the inside, from its left edge as far as the fill goes, gets
/// the text colour; the border of the body, a line wide, and the terminal, a line
/// wide on the right between the border's rows, get the outline's; all else stays.
#[verifier::spinoff_prover]
#[verifier::rlimit(40)]
pub proof fn law_glyph_pixels(
    size: int,
    l: Layout,
    percent: Option<u8>,
    fg: u32,
    bg: u32,
    x: int,
    y: int,
    before: u32,
)
    requires
        l.fits(size),
    ensures
        ({
            let px = painted(l, percent, fg, bg, x, y, before);
            let (left, right) = (x - l.body_x, l.body_x + l.body_w - 1 - x);
            let (above, below) = (y - l.body_y, l.body_y + l.body_h - 1 - y);
            let body = left >= 0 && right >= 0 && above >= 0 && below >= 0;
            let border = left < l.line || right < l.line || above < l.line || below < l.line;
            let width = filled(l.body_w - 2 * l.line, percent);
            let terminal = right < 0 && -right <= l.line && above >= l.line && below >= l.line;
            &&& body && border ==> px == outline_pixel(fg, bg)
            &&& body && !border && left - l.line < width ==> px == pixel_of_colorref(fg)
            &&& body && !border && left - l.line >= width ==> px == before
            &&& terminal ==> px == outline_pixel(fg, bg)
            &&& !body && !terminal ==> px == before
        }),
{
    crate::layout::lemma_filled(l.body_w - 2 * l.line, percent);
}

proof fn lemma_outline_channel(fg: int, bg: int)
    requires
        0 <= fg <= 255,
        0 <= bg <= 255,
    ensures
        0 <= outline_channel(fg, bg) <= 255,
        -50 < 100 * outline_channel(fg, bg) - (85 * fg + 15 * bg) <= 50,
{
}

/// The outline's colour is, in each channel, 85% of the text's and 15% of the
/// background's, to the nearest step, a half going up.
pub proof fn law_outline_color(fg: u32, bg: u32, c: int)
    requires
        0 <= c < 3,
    ensures
        -50 < 100 * pixel_channels(outline_pixel(fg, bg))[c] - (85 * colorref_channels(fg)[c] + 15
            * colorref_channels(bg)[c]) <= 50,
        outline_pixel(fg, bg) < 0x100_0000,
{
    let r = outline_channel(byte0(fg), byte0(bg));
    let g = outline_channel(byte1(fg), byte1(bg));
    let b = outline_channel(byte2(fg), byte2(bg));
    lemma_outline_channel(byte0(fg), byte0(bg));
    lemma_outline_channel(byte1(fg), byte1(bg));
    lemma_outline_channel(byte2(fg), byte2(bg));
    crate::color::law_pixel_of(r, g, b);
}

} // verus!
