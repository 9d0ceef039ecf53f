//! Fitting the drawn digits into an icon.
//!
//! The digits are drawn, at one em size after another, onto a canvas four times
//! as wide as the icon. These functions measure what was drawn, decide whether it
//! fits, and move it into place.
use vstd::prelude::*;

use crate::color::{colorref_pixel, pixel_channels, pixel_of_colorref, pixel_rgb};
use crate::glyph::{lemma_column_and_row, lemma_position};
use crate::layout::Layout;
use crate::taskbar::toward_zero;

verus! {

/// The smallest em that is tried, in pixels.
pub const MIN_EM: i32 = 6;

/// A bounding box of pixels, all four sides inclusive.
#[derive(Clone, Copy, Debug, PartialEq, Eq, Structural)]
pub struct InkBox {
    pub left: i32,
    pub top: i32,
    pub right: i32,
    pub bottom: i32,
}

/// What to do next for the digits: draw them at an em size, or use these pixels.
pub enum TextStep {
    Draw(i32),
    Finished(Vec<u32>),
}

/// The meaning of a `TextStep`.
pub enum TextStepView {
    Draw(int),
    Finished(Seq<u32>),
}

impl View for TextStep {
    type V = TextStepView;

    open spec fn view(&self) -> TextStepView {
        match self {
            TextStep::Draw(em) => TextStepView::Draw(*em as int),
            TextStep::Finished(px) => TextStepView::Finished(px@),
        }
    }
}

/// Drawn pixels without the unused top byte, which the drawing leaves undefined.
pub open spec fn colors_of(raw: Seq<u32>) -> Seq<u32> {
    raw.map_values(|p: u32| (p as int % 0x100_0000) as u32)
}

pub open spec fn distance(a: int, b: int) -> int {
    if a >= b {
        a - b
    } else {
        b - a
    }
}

/// Whether a pixel differs visibly from the canvas colour.
pub open spec fn is_ink(p: u32, fill: u32) -> bool {
    let (a, b) = (pixel_channels(p), pixel_channels(fill));
    distance(a[0] as int, b[0] as int) > 12 || distance(a[1] as int, b[1] as int) > 12 || distance(
        a[2] as int,
        b[2] as int,
    ) > 12
}

/// A box grown, if need be, to hold one more pixel.
pub open spec fn grown(b: Option<InkBox>, x: i32, y: i32) -> InkBox {
    match b {
        Some(b) => InkBox {
            left: if x < b.left {
                x
            } else {
                b.left
            },
            top: if y < b.top {
                y
            } else {
                b.top
            },
            right: if x > b.right {
                x
            } else {
                b.right
            },
            bottom: if y > b.bottom {
                y
            } else {
                b.bottom
            },
        },
        None => InkBox { left: x, top: y, right: x, bottom: y },
    }
}

/// The bounding box of the ink among the first `k` pixels of a canvas of `n`
/// columns.
pub open spec fn ink_box(drawn: Seq<u32>, n: int, fill: u32, k: int) -> Option<InkBox>
    decreases k,
{
    if k <= 0 {
        None
    } else if is_ink(drawn[k - 1], fill) {
        Some(
            grown(ink_box(drawn, n, fill, k - 1), ((k - 1) % n) as i32, ((k - 1) / n) as i32),
        )
    } else {
        ink_box(drawn, n, fill, k - 1)
    }
}

/// The bounding box of all the ink on a canvas.
pub open spec fn ink_of(drawn: Seq<u32>, n: int, fill: u32) -> Option<InkBox> {
    ink_box(drawn, n, fill, drawn.len() as int)
}

proof fn lemma_ink_box(drawn: Seq<u32>, n: int, fill: u32, k: int)
    requires
        0 < n <= 46340,
        drawn.len() == n * n,
        0 <= k <= n * n,
    ensures
        match ink_box(drawn, n, fill, k) {
            Some(b) => {
                &&& 0 <= b.left <= b.right < n
                &&& 0 <= b.top <= b.bottom < n
                &&& forall|p: int|
                    0 <= p < k && is_ink(#[trigger] drawn[p], fill) ==> b.left <= p % n <= b.right
                        && b.top <= p / n <= b.bottom
                &&& exists|p: int| 0 <= p < k && is_ink(#[trigger] drawn[p], fill) && p % n == b.left
                &&& exists|p: int|
                    0 <= p < k && is_ink(#[trigger] drawn[p], fill) && p % n == b.right
                &&& exists|p: int| 0 <= p < k && is_ink(#[trigger] drawn[p], fill) && p / n == b.top
                &&& exists|p: int|
                    0 <= p < k && is_ink(#[trigger] drawn[p], fill) && p / n == b.bottom
            },
            None => forall|p: int| 0 <= p < k ==> !is_ink(#[trigger] drawn[p], fill),
        },
    decreases k,
{
    if k > 0 {
        lemma_ink_box(drawn, n, fill, k - 1);
        lemma_column_and_row(k - 1, n);
        if is_ink(drawn[k - 1], fill) {
            let before = ink_box(drawn, n, fill, k - 1);
            let b = grown(before, ((k - 1) % n) as i32, ((k - 1) / n) as i32);
            assert(is_ink(drawn[k - 1], fill));
            assert(exists|p: int| 0 <= p < k && is_ink(#[trigger] drawn[p], fill) && p % n == b.left);
            assert(exists|p: int|
                0 <= p < k && is_ink(#[trigger] drawn[p], fill) && p % n == b.right);
            assert(exists|p: int| 0 <= p < k && is_ink(#[trigger] drawn[p], fill) && p / n == b.top);
            assert(exists|p: int|
                0 <= p < k && is_ink(#[trigger] drawn[p], fill) && p / n == b.bottom);
        }
    }
}

/// The box of a drawing's ink is the smallest one: it holds every inked pixel,
/// and there is one on each of its sides. Without ink there is none.
pub proof fn law_ink_box_is_tight(drawn: Seq<u32>, n: int, fill: u32)
    requires
        0 < n <= 46340,
        drawn.len() == n * n,
    ensures
        match ink_of(drawn, n, fill) {
            Some(b) => {
                &&& 0 <= b.left <= b.right < n
                &&& 0 <= b.top <= b.bottom < n
                &&& forall|p: int|
                    0 <= p < n * n && is_ink(#[trigger] drawn[p], fill) ==> b.left <= p % n
                        <= b.right && b.top <= p / n <= b.bottom
                &&& exists|p: int|
                    0 <= p < n * n && is_ink(#[trigger] drawn[p], fill) && p % n == b.left
                &&& exists|p: int|
                    0 <= p < n * n && is_ink(#[trigger] drawn[p], fill) && p % n == b.right
                &&& exists|p: int|
                    0 <= p < n * n && is_ink(#[trigger] drawn[p], fill) && p / n == b.top
                &&& exists|p: int|
                    0 <= p < n * n && is_ink(#[trigger] drawn[p], fill) && p / n == b.bottom
            },
            None => forall|p: int| 0 <= p < n * n ==> !is_ink(#[trigger] drawn[p], fill),
        },
{
    lemma_ink_box(drawn, n, fill, n * n);
}

fn differs(a: i32, b: i32) -> (r: bool)
    requires
        0 <= a < 256,
        0 <= b < 256,
    ensures
        r <==> distance(a as int, b as int) > 12,
{
    if a >= b {
        a - b > 12
    } else {
        b - a > 12
    }
}

/// What was drawn onto an `n`-px canvas filled with `fill`: its pixels, and the
/// bounding box of those the drawing changed.
pub fn draw(raw: &[u32], n: i32, fill: u32) -> (r: (Vec<u32>, Option<InkBox>))
    requires
        0 < n <= 46340,
        raw@.len() == n * n,
    ensures
        r.0@ == colors_of(raw@),
        r.1 == ink_of(colors_of(raw@), n as int, fill),
{
    let ghost colors = colors_of(raw@);
    let width: usize = n as usize;
    let bg = pixel_rgb(fill);
    let mut drawn: Vec<u32> = Vec::with_capacity(raw.len());
    let mut ink: Option<InkBox> = None;
    let mut i: usize = 0;
    while i < raw.len()
        invariant
            0 < n <= 46340,
            width == n,
            raw@.len() == n * n,
            colors == colors_of(raw@),
            bg@ == pixel_channels(fill),
            i <= raw.len(),
            drawn@ == colors.take(i as int),
            ink == ink_box(colors, n as int, fill, i as int),
        decreases raw.len() - i,
    {
        let p: u32 = raw[i];
        assert(p & 0x00FF_FFFF == p % 0x100_0000) by (bit_vector);
        let c: u32 = p & 0x00FF_FFFF;
        drawn.push(c);
        assert(colors.take(i + 1) == colors.take(i as int).push(colors[i as int]));
        let rgb = pixel_rgb(c);
        if differs(rgb[0], bg[0]) || differs(rgb[1], bg[1]) || differs(rgb[2], bg[2]) {
            proof {
                lemma_column_and_row(i as int, n as int);
            }
            let (x, y) = ((i % width) as i32, (i / width) as i32);
            ink = Some(
                match ink {
                    Some(b) => InkBox {
                        left: if x < b.left {
                            x
                        } else {
                            b.left
                        },
                        top: if y < b.top {
                            y
                        } else {
                            b.top
                        },
                        right: if x > b.right {
                            x
                        } else {
                            b.right
                        },
                        bottom: if y > b.bottom {
                            y
                        } else {
                            b.bottom
                        },
                    },
                    None => InkBox { left: x, top: y, right: x, bottom: y },
                },
            );
        }
        i += 1;
    }
    assert(colors.take(i as int) == colors);
    (drawn, ink)
}

// ---------------------------------------------------------------------------
// Fitting
impl InkBox {
    pub open spec fn width(self) -> int {
        self.right - self.left + 1
    }

    pub open spec fn height(self) -> int {
        self.bottom - self.top + 1
    }
}

/// Columns to move the drawn text by, to centre its ink on the icon.
pub open spec fn shift_x(size: int, text: InkBox) -> int {
    toward_zero(size - text.width(), 2) - text.left
}

/// Rows to move the drawn text by, to centre the digit "8" in the text box. It
/// does not depend on the text, so every value shares one baseline.
pub open spec fn shift_y(l: Layout, digit: InkBox) -> int {
    l.text_top + toward_zero(l.text_h - digit.height(), 2) - digit.top
}

/// The pixel at (x, y) of an icon that shows the text box of a drawing, moved by
/// (dx, dy). What the drawing does not reach is `fill`.
pub open spec fn moved_pixel(
    drawn: Seq<u32>,
    size: int,
    l: Layout,
    fill: u32,
    dx: int,
    dy: int,
    x: int,
    y: int,
) -> u32 {
    if l.text_top <= y < l.text_top + l.text_h && 0 <= x - dx < 4 * size && 0 <= y - dy < 4 * size {
        drawn[(y - dy) * (4 * size) + (x - dx)]
    } else {
        fill
    }
}

/// An icon of `fill` alone.
pub open spec fn blank(size: int, fill: u32) -> Seq<u32> {
    Seq::new((size * size) as nat, |p: int| fill)
}

/// The icon that shows a drawing's text, with the text's and the digit's ink.
pub open spec fn placed(
    drawn: Seq<u32>,
    size: int,
    l: Layout,
    fill: u32,
    digit: InkBox,
    text: InkBox,
) -> Seq<u32> {
    Seq::new(
        (size * size) as nat,
        |p: int|
            moved_pixel(
                drawn,
                size,
                l,
                fill,
                shift_x(size, text),
                shift_y(l, digit),
                p % size,
                p / size,
            ),
    )
}

/// Whether drawn text is within the layout's limits: the text in width, the
/// digit in height.
pub open spec fn within_limits(l: Layout, digit: InkBox, text: InkBox) -> bool {
    text.width() <= l.max_w && digit.height() <= l.max_h
}

/// What follows from drawing the digit "8" and the text at one em size onto
/// canvases of four times the icon's side.
pub open spec fn text_step(
    size: int,
    l: Layout,
    bg: u32,
    em: int,
    digit: Seq<u32>,
    text: Seq<u32>,
) -> TextStepView {
    let fill = pixel_of_colorref(bg);
    match (
        ink_of(colors_of(digit), 4 * size, fill),
        ink_of(colors_of(text), 4 * size, fill),
    ) {
        (Some(d), Some(t)) => if within_limits(l, d, t) || em == MIN_EM {
            TextStepView::Finished(placed(colors_of(text), size, l, fill, d, t))
        } else {
            TextStepView::Draw(em - 1)
        },
        _ => TextStepView::Finished(blank(size, fill)),
    }
}

/// A `size`-px icon's pixels without any text, over COLORREF `bg`.
pub fn blank_pixels(size: i32, bg: u32) -> (r: Vec<u32>)
    requires
        0 <= size <= 46340,
    ensures
        r@ == blank(size as int, pixel_of_colorref(bg)),
{
    proof {
        assert(0 <= size * size <= 46340 * 46340) by (nonlinear_arith)
            requires
                0 <= size <= 46340,
        ;
    }
    let fill = colorref_pixel(bg);
    vec![fill; (size * size) as usize]
}

/// The first step for the text of an icon.
pub open spec fn first_step(size: int, bg: u32) -> TextStepView {
    if size >= MIN_EM {
        TextStepView::Draw(size)
    } else {
        TextStepView::Finished(blank(size, pixel_of_colorref(bg)))
    }
}

/// The first step for the text of a `size`-px icon over COLORREF `bg`: draw at an
/// em as tall as the icon. In an icon below the smallest em there is no text.
pub fn first_text_step(size: i32, bg: u32) -> (r: TextStep)
    requires
        0 <= size <= 46340,
    ensures
        r@ == first_step(size as int, bg),
{
    if size >= MIN_EM {
        TextStep::Draw(size)
    } else {
        TextStep::Finished(blank_pixels(size, bg))
    }
}

fn place(drawn: &[u32], size: i32, l: &Layout, fill: u32, digit: InkBox, text: InkBox) -> (r: Vec<
    u32,
>)
    requires
        1 <= size <= 11585,
        l.fits(size as int),
        drawn@.len() == (4 * size) * (4 * size),
        0 <= digit.top <= digit.bottom < 4 * size,
        0 <= text.left <= text.right < 4 * size,
    ensures
        r@ == placed(drawn@, size as int, *l, fill, digit, text),
{
    let ghost s = size as int;
    let n: i32 = 4 * size;
    let dx: i32 = (size - (text.right - text.left + 1)) / 2 - text.left;
    let dy: i32 = l.text_top + (l.text_h - (digit.bottom - digit.top + 1)) / 2 - digit.top;
    assert(dx == shift_x(s, text));
    assert(dy == shift_y(*l, digit));
    let mut out: Vec<u32> = Vec::new();
    let mut y: i32 = 0;
    assert(0 * s == 0);
    while y < size
        invariant
            s == size,
            n == 4 * size,
            1 <= size <= 11585,
            0 <= y <= size,
            l.fits(s),
            -100000 <= dx <= 100000,
            -100000 <= dy <= 100000,
            dx == shift_x(s, text),
            dy == shift_y(*l, digit),
            drawn@.len() == (4 * size) * (4 * size),
            out@.len() == y * s,
            forall|p: int|
                0 <= p < y * s ==> #[trigger] out@[p] == placed(drawn@, s, *l, fill, digit, text)[p],
            y * s <= s * s,
        decreases size - y,
    {
        let mut x: i32 = 0;
        while x < size
            invariant
                s == size,
                n == 4 * size,
                1 <= size <= 11585,
                0 <= y < size,
                0 <= x <= size,
                l.fits(s),
                -100000 <= dx <= 100000,
                -100000 <= dy <= 100000,
                dx == shift_x(s, text),
                dy == shift_y(*l, digit),
                drawn@.len() == (4 * size) * (4 * size),
                out@.len() == y * s + x,
                forall|p: int|
                    0 <= p < y * s + x ==> #[trigger] out@[p] == placed(
                        drawn@,
                        s,
                        *l,
                        fill,
                        digit,
                        text,
                    )[p],
            decreases size - x,
        {
            let (sx, sy) = (x - dx, y - dy);
            proof {
                lemma_position(x as int, y as int, s);
            }
            let px: u32 = if l.text_top <= y && y < l.text_top + l.text_h && 0 <= sx && sx < n && 0
                <= sy && sy < n {
                proof {
                    lemma_position(sx as int, sy as int, n as int);
                    assert(n * n <= 46340 * 46340) by (nonlinear_arith)
                        requires
                            0 <= n <= 46340,
                    ;
                    assert(n * n == (4 * size) * (4 * size));
                }
                drawn[(sy * n + sx) as usize]
            } else {
                fill
            };
            let ghost last = out@;
            out.push(px);
            assert forall|p: int| 0 <= p < y * s + x + 1 implies #[trigger] out@[p] == placed(
                drawn@,
                s,
                *l,
                fill,
                digit,
                text,
            )[p] by {
                if p < y * s + x {
                    assert(out@[p] == last[p]);
                } else {
                    assert(out@[p] == px);
                }
            }
            x += 1;
        }
        proof {
            assert((y + 1) * s == y * s + s) by (nonlinear_arith);
            assert((y + 1) * s <= s * s) by (nonlinear_arith)
                requires
                    y + 1 <= s,
                    0 < s,
            ;
        }
        y += 1;
    }
    out
}

/// Judge the digit "8" and the text as drawn at `em` onto canvases of four times
/// the icon's side, filled with COLORREF `bg`: done with them, or draw again
/// smaller. Aims at the largest em where the digit fits the height limit and the
/// text the width limit; centred horizontally on the text's ink and vertically on
/// the digit. Where nothing is drawable the icon stays blank.
pub fn text_pixels(size: i32, l: &Layout, bg: u32, em: i32, digit: &[u32], text: &[u32]) -> (r:
    TextStep)
    requires
        1 <= size <= 11585,
        l.fits(size as int),
        MIN_EM <= em <= size,
        digit@.len() == (4 * size) * (4 * size),
        text@.len() == (4 * size) * (4 * size),
    ensures
        r@ == text_step(size as int, *l, bg, em as int, digit@, text@),
        r@ matches TextStepView::Draw(next) ==> MIN_EM <= next < em,
{
    let fill = colorref_pixel(bg);
    let n: i32 = 4 * size;
    proof {
        assert(n * n == (4 * size) * (4 * size));
        lemma_ink_box(colors_of(digit@), n as int, fill, n * n);
        lemma_ink_box(colors_of(text@), n as int, fill, n * n);
    }
    let (_, digit_ink) = draw(digit, n, fill);
    let (drawn, text_ink) = draw(text, n, fill);
    match (digit_ink, text_ink) {
        (Some(d), Some(t)) => {
            let (w, h) = (t.right - t.left + 1, d.bottom - d.top + 1);
            if (w <= l.max_w && h <= l.max_h) || em == MIN_EM {
                TextStep::Finished(place(drawn.as_slice(), size, l, fill, d, t))
            } else {
                TextStep::Draw(em - 1)
            }
        },
        _ => TextStep::Finished(blank_pixels(size, bg)),
    }
}

// ---------------------------------------------------------------------------
// Laws
/// The icon that trying one em after another ends with, from `em` down, where
/// `digit` and `text` give the canvases drawn at each em.
pub open spec fn text_run(
    size: int,
    l: Layout,
    bg: u32,
    digit: spec_fn(int) -> Seq<u32>,
    text: spec_fn(int) -> Seq<u32>,
    em: int,
) -> Seq<u32>
    decreases em,
{
    if em < MIN_EM {
        blank(size, pixel_of_colorref(bg))
    } else {
        match text_step(size, l, bg, em, digit(em), text(em)) {
            TextStepView::Draw(next) => if 0 <= next < em {
                text_run(size, l, bg, digit, text, next)
            } else {
                blank(size, pixel_of_colorref(bg))
            },
            TextStepView::Finished(pixels) => pixels,
        }
    }
}

/// Whether the drawings at one em both have ink.
pub open spec fn drawable(size: int, bg: u32, digit: Seq<u32>, text: Seq<u32>) -> bool {
    let fill = pixel_of_colorref(bg);
    ink_of(colors_of(digit), 4 * size, fill) is Some && ink_of(colors_of(text), 4 * size, fill) is Some
}

/// Whether the drawings at one em are within the layout's limits.
pub open spec fn fitting(size: int, l: Layout, bg: u32, digit: Seq<u32>, text: Seq<u32>) -> bool {
    let fill = pixel_of_colorref(bg);
    within_limits(
        l,
        ink_of(colors_of(digit), 4 * size, fill)->0,
        ink_of(colors_of(text), 4 * size, fill)->0,
    )
}

/// Trying em after em uses the largest em that fits, or the smallest one where
/// none does.
pub proof fn law_largest_em_is_used(
    size: int,
    l: Layout,
    bg: u32,
    digit: spec_fn(int) -> Seq<u32>,
    text: spec_fn(int) -> Seq<u32>,
    start: int,
    em: int,
)
    requires
        MIN_EM <= em <= start,
        forall|e: int|
            em < e <= start ==> drawable(size, bg, #[trigger] digit(e), text(e)) && !fitting(
                size,
                l,
                bg,
                digit(e),
                text(e),
            ),
        drawable(size, bg, digit(em), text(em)),
        fitting(size, l, bg, digit(em), text(em)) || em == MIN_EM,
    ensures
        text_run(size, l, bg, digit, text, start) == placed(
            colors_of(text(em)),
            size,
            l,
            pixel_of_colorref(bg),
            ink_of(colors_of(digit(em)), 4 * size, pixel_of_colorref(bg))->0,
            ink_of(colors_of(text(em)), 4 * size, pixel_of_colorref(bg))->0,
        ),
    decreases start - em,
{
    if em < start {
        assert(drawable(size, bg, digit(start), text(start)));
        law_largest_em_is_used(size, l, bg, digit, text, start - 1, em);
    }
}

/// Text no wider than the icon is centred on it by its ink, the left margin
/// being the smaller by a pixel where they differ.
pub proof fn law_text_is_centred(size: int, text: InkBox)
    requires
        text.width() <= size,
    ensures
        0 <= text.left + shift_x(size, text),
        0 <= (size - 1 - (text.right + shift_x(size, text))) - (text.left + shift_x(size, text)) <= 1,
{
}

/// Digits no taller than the text box are centred in its rows, the margin above
/// being the smaller by a pixel where they differ.
pub proof fn law_digits_are_centred(l: Layout, digit: InkBox)
    requires
        digit.height() <= l.text_h,
    ensures
        l.text_top <= digit.top + shift_y(l, digit),
        0 <= (l.text_top + l.text_h - 1 - (digit.bottom + shift_y(l, digit))) - (digit.top + shift_y(
            l,
            digit,
        ) - l.text_top) <= 1,
{
}

/// Outside the rows of the text box the icon shows the background alone.
pub proof fn law_text_stays_in_its_box(
    drawn: Seq<u32>,
    size: int,
    l: Layout,
    fill: u32,
    digit: InkBox,
    text: InkBox,
    p: int,
)
    requires
        0 <= p < size * size,
        p / size < l.text_top || l.text_top + l.text_h <= p / size,
    ensures
        placed(drawn, size, l, fill, digit, text)[p] == fill,
{
}

/// Where the text is no wider than the icon and the digit no taller than the text
/// box, each pixel of the text in the digit's rows shows on the icon, moved by the
/// two shifts.
pub proof fn law_text_is_shown(
    drawn: Seq<u32>,
    size: int,
    l: Layout,
    fill: u32,
    digit: InkBox,
    text: InkBox,
    x: int,
    y: int,
)
    requires
        1 <= size,
        l.fits(size),
        text.width() <= size,
        digit.height() <= l.text_h,
        0 <= text.left <= x <= text.right < 4 * size,
        0 <= digit.top <= y <= digit.bottom < 4 * size,
    ensures
        ({
            let (column, row) = (x + shift_x(size, text), y + shift_y(l, digit));
            &&& 0 <= column < size
            &&& 0 <= row < size
            &&& placed(drawn, size, l, fill, digit, text)[row * size + column] == drawn[y * (4
                * size) + x]
        }),
{
    law_text_is_centred(size, text);
    law_digits_are_centred(l, digit);
    lemma_position(x + shift_x(size, text), y + shift_y(l, digit), size);
}

/// Two texts drawn at one em, such as a number and the "…" placeholder, share a
/// baseline: a row of the drawing shows on the same row of the icon.
pub proof fn law_texts_share_a_baseline(
    a: Seq<u32>,
    b: Seq<u32>,
    size: int,
    l: Layout,
    fill: u32,
    digit: InkBox,
    text_a: InkBox,
    text_b: InkBox,
    xa: int,
    xb: int,
    y: int,
)
    requires
        1 <= size,
        l.fits(size),
        text_a.width() <= size,
        text_b.width() <= size,
        digit.height() <= l.text_h,
        0 <= text_a.left <= xa <= text_a.right < 4 * size,
        0 <= text_b.left <= xb <= text_b.right < 4 * size,
        0 <= digit.top <= y <= digit.bottom < 4 * size,
    ensures
        exists|row: int, column_a: int, column_b: int|
            0 <= row < size && 0 <= column_a < size && 0 <= column_b < size && (
            #[trigger] placed(a, size, l, fill, digit, text_a)[row * size + column_a]) == a[y * (4
                * size) + xa] && (#[trigger] placed(b, size, l, fill, digit, text_b)[row * size
                + column_b]) == b[y * (4 * size) + xb],
{
    law_text_is_shown(a, size, l, fill, digit, text_a, xa, y);
    law_text_is_shown(b, size, l, fill, digit, text_b, xb, y);
    let row = y + shift_y(l, digit);
    let column_a = xa + shift_x(size, text_a);
    let column_b = xb + shift_x(size, text_b);
    assert(placed(a, size, l, fill, digit, text_a)[row * size + column_a] == a[y * (4 * size) + xa]);
    assert(placed(b, size, l, fill, digit, text_b)[row * size + column_b] == b[y * (4 * size) + xb]);
}

// ---------------------------------------------------------------------------
// What is measured and moved
/// A pixel is ink where red, green or blue is more than twelve steps from the
/// canvas colour's. The top byte of a drawn pixel does not count.
pub proof fn law_ink(p: u32, fill: u32, raw: Seq<u32>, i: int)
    requires
        0 <= i < raw.len(),
    ensures
        is_ink(p, fill) <==> exists|c: int|
            0 <= c < 3 && (#[trigger] pixel_channels(p)[c] - pixel_channels(fill)[c] > 12
                || pixel_channels(fill)[c] - pixel_channels(p)[c] > 12),
        colors_of(raw).len() == raw.len(),
        colors_of(raw)[i] < 0x100_0000,
        (raw[i] - colors_of(raw)[i]) % 0x100_0000 == 0,
{
    let (a, b) = (pixel_channels(p), pixel_channels(fill));
    if is_ink(p, fill) {
        let c = if distance(a[0] as int, b[0] as int) > 12 {
            0int
        } else if distance(a[1] as int, b[1] as int) > 12 {
            1int
        } else {
            2int
        };
        assert(a[c] - b[c] > 12 || b[c] - a[c] > 12);
    }
}

/// Text is centred on the icon by its ink and the digit "8" in the rows of the text
/// box, also where they are larger than that: the two margins, negative where they
/// stick out, differ by a pixel at most.
pub proof fn law_margins(size: int, l: Layout, digit: InkBox, text: InkBox)
    ensures
        ({
            let left = text.left + shift_x(size, text);
            let right = size - 1 - (text.right + shift_x(size, text));
            -1 <= right - left <= 1 && (size >= text.right - text.left + 1 ==> right >= left) && (
            size <= text.right - text.left + 1 ==> right <= left)
        }),
        ({
            let above = digit.top + shift_y(l, digit) - l.text_top;
            let below = l.text_top + l.text_h - 1 - (digit.bottom + shift_y(l, digit));
            -1 <= below - above <= 1 && (l.text_h >= digit.bottom - digit.top + 1 ==> below >= above)
                && (l.text_h <= digit.bottom - digit.top + 1 ==> below <= above)
        }),
{
}

/// The icon shows, in the rows of the text box, the drawing moved by the two
/// shifts, and the canvas colour where that reaches nothing or outside those rows.
pub proof fn law_icon_shows_the_moved_drawing(
    drawn: Seq<u32>,
    size: int,
    l: Layout,
    fill: u32,
    digit: InkBox,
    text: InkBox,
    x: int,
    y: int,
)
    requires
        0 <= x < size,
        0 <= y < size,
    ensures
        ({
            let px = placed(drawn, size, l, fill, digit, text)[y * size + x];
            let (from_x, from_y) = (x - shift_x(size, text), y - shift_y(l, digit));
            let in_box = l.text_top <= y < l.text_top + l.text_h;
            let on_canvas = 0 <= from_x < 4 * size && 0 <= from_y < 4 * size;
            &&& placed(drawn, size, l, fill, digit, text).len() == size * size
            &&& in_box && on_canvas ==> px == drawn[from_y * (4 * size) + from_x]
            &&& !in_box || !on_canvas ==> px == fill
        }),
{
    lemma_position(x, y, size);
}

/// Drawings at one em are used just where the text is no wider and the digit no
/// taller than the layout's limits, or the em is 6; else the next smaller em is
/// drawn. Where either has no ink the icon is blank.
pub proof fn law_text_step(
    size: int,
    l: Layout,
    bg: u32,
    em: int,
    digit: Seq<u32>,
    text: Seq<u32>,
)
    ensures
        ({
            let fill = pixel_of_colorref(bg);
            let d = ink_of(colors_of(digit), 4 * size, fill);
            let t = ink_of(colors_of(text), 4 * size, fill);
            let step = text_step(size, l, bg, em, digit, text);
            let wide = t->0.right - t->0.left >= l.max_w;
            let tall = d->0.bottom - d->0.top >= l.max_h;
            &&& d is None || t is None ==> (step matches TextStepView::Finished(px) && px.len() == (
            size * size) as nat && (forall|p: int|
                0 <= p < px.len() ==> #[trigger] px[p] == fill))
            &&& d is Some && t is Some && em > 6 && (wide || tall) ==> step == TextStepView::Draw(
                em - 1,
            )
            &&& d is Some && t is Some && (em == 6 || !(wide || tall)) ==> step
                == TextStepView::Finished(placed(colors_of(text), size, l, fill, d->0, t->0))
        }),
{
}

/// The first em that is drawn is the icon's size; below 6 there is no text and the
/// icon is blank.
pub proof fn law_first_step(size: int, bg: u32)
    ensures
        size >= 6 ==> first_step(size, bg) == TextStepView::Draw(size),
        0 <= size < 6 ==> (first_step(size, bg) matches TextStepView::Finished(px) && px.len() == (size
            * size) as nat && (forall|p: int|
            0 <= p < px.len() ==> #[trigger] px[p] == pixel_of_colorref(bg))),
{
}

} // verus!
