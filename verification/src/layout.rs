//! Where the digits and the battery glyph go in an icon.
use vstd::prelude::*;

use crate::taskbar::toward_zero;

verus! {

/// Whether and where a small battery glyph is drawn with the digits.
#[derive(Clone, Copy, Debug, PartialEq, Eq, Structural)]
pub enum BatteryGlyph {
    Hidden,
    Above,
    Below,
}

impl BatteryGlyph {
    pub const ALL: [BatteryGlyph; 3] = [
        BatteryGlyph::Hidden,
        BatteryGlyph::Above,
        BatteryGlyph::Below,
    ];
}

/// Where things go in an icon. At 16 px, with the glyph: 8 rows for digits up to
/// 8 px tall and 14 px wide, a 2-row gap (one row let them merge at tray size)
/// and a 10x6 body plus a 1x4 terminal (close to a real battery's proportions),
/// a bigger glyph leaving the digits too small to read. Without it the digits get
/// the whole icon, up to 10 px tall.
#[derive(Clone, Copy, Debug, PartialEq, Eq, Structural)]
pub struct Layout {
    pub line: i32,
    pub body_x: i32,
    pub body_y: i32,
    pub body_w: i32,
    pub body_h: i32,
    pub text_top: i32,
    pub text_h: i32,
    pub max_w: i32,
    pub max_h: i32,
}

/// `n` sixteenths of `size`.
pub open spec fn sixteenths(size: int, n: int) -> int {
    toward_zero(size * n, 16)
}

pub open spec fn at_least(v: int, low: int) -> int {
    if v < low {
        low
    } else {
        v
    }
}

/// Rows between the digits and the glyph.
pub open spec fn gap_of(size: int) -> int {
    at_least(toward_zero(size, 8), 2)
}

/// The layout of an icon of `size` pixels. The body is centred alone: the short
/// terminal adds little visual weight, and centring it too would make the glyph
/// look shifted left.
pub open spec fn layout_of(size: int, glyph: BatteryGlyph) -> Layout {
    let shown = glyph != BatteryGlyph::Hidden;
    let body_h = sixteenths(size, 6);
    Layout {
        line: at_least(toward_zero(size, 16), 1) as i32,
        body_x: toward_zero(size - sixteenths(size, 10), 2) as i32,
        body_y: (if glyph == BatteryGlyph::Below {
            size - body_h
        } else {
            0
        }) as i32,
        body_w: (if shown {
            sixteenths(size, 10)
        } else {
            0
        }) as i32,
        body_h: (if shown {
            body_h
        } else {
            0
        }) as i32,
        text_top: (if glyph == BatteryGlyph::Above {
            body_h + gap_of(size)
        } else {
            0
        }) as i32,
        text_h: (if shown {
            size - body_h - gap_of(size)
        } else {
            size
        }) as i32,
        max_w: sixteenths(size, 14) as i32,
        max_h: (if shown {
            toward_zero(size, 2)
        } else {
            sixteenths(size, 10)
        }) as i32,
    }
}

/// Where things go in a `size`-px icon.
pub fn layout(size: i32, glyph: BatteryGlyph) -> (r: Layout)
    requires
        i32::MIN <= size * 14 <= i32::MAX,
    ensures
        r == layout_of(size as int, glyph),
        size >= 1 ==> r.fits(size as int),
{
    let line: i32 = if size / 16 > 1 {
        size / 16
    } else {
        1
    };
    let body_w: i32 = size * 10 / 16;
    let body_h: i32 = size * 6 / 16;
    let gap: i32 = if size / 8 > 2 {
        size / 8
    } else {
        2
    };
    let body_x: i32 = (size - body_w) / 2;
    let max_w: i32 = size * 14 / 16;
    match glyph {
        BatteryGlyph::Hidden => Layout {
            line,
            body_x,
            body_y: 0,
            body_w: 0,
            body_h: 0,
            text_top: 0,
            text_h: size,
            max_w,
            max_h: size * 10 / 16,
        },
        BatteryGlyph::Above => Layout {
            line,
            body_x,
            body_y: 0,
            body_w,
            body_h,
            text_top: body_h + gap,
            text_h: size - body_h - gap,
            max_w,
            max_h: size / 2,
        },
        BatteryGlyph::Below => Layout {
            line,
            body_x,
            body_y: size - body_h,
            body_w,
            body_h,
            text_top: 0,
            text_h: size - body_h - gap,
            max_w,
            max_h: size / 2,
        },
    }
}

impl Layout {
    /// Whether all of the layout lies in an icon of `size` pixels. A glyph tall
    /// enough to have an inside is wide enough for one.
    pub open spec fn fits(self, size: int) -> bool {
        &&& self.line >= 1
        &&& 0 <= self.body_x
        &&& 0 <= self.body_w
        &&& self.body_x + self.body_w + self.line <= size
        &&& 0 <= self.body_y
        &&& 0 <= self.body_h
        &&& self.body_y + self.body_h <= size
        &&& self.body_w > 2 * self.line || self.body_h <= 2 * self.line
        &&& 0 <= self.text_top
        &&& -size <= self.text_h
        &&& self.text_top + self.text_h <= size
    }
}

/// At every size, digits and glyph stay on the icon, with at least two rows
/// between them.
pub proof fn law_layout_fits(size: int, glyph: BatteryGlyph)
    requires
        1 <= size,
        size * 14 <= i32::MAX,
    ensures
        layout_of(size, glyph).fits(size),
        glyph == BatteryGlyph::Above ==> {
            let l = layout_of(size, glyph);
            l.text_top - (l.body_y + l.body_h) >= 2
        },
        glyph == BatteryGlyph::Below ==> {
            let l = layout_of(size, glyph);
            l.body_y - (l.text_top + l.text_h) >= 2
        },
{
}

/// The tallest digits fit the box they are given, but for icons of 8 pixels and
/// less, where a glyph can leave one row too few.
pub proof fn law_digits_fit_their_box(size: int, glyph: BatteryGlyph)
    requires
        1 <= size,
        size * 14 <= i32::MAX,
        glyph == BatteryGlyph::Hidden || size == 5 || size == 7 || size >= 9,
    ensures
        layout_of(size, glyph).max_h <= layout_of(size, glyph).text_h,
{
}

/// The percentage that is shown: none for a placeholder, 100 at most.
pub open spec fn shown_percent(percent: Option<u8>) -> int {
    match percent {
        Some(p) => if p > 100 {
            100
        } else {
            p as int
        },
        None => 0,
    }
}

/// Pixels of a battery's `inner_w` that stand for `percent`.
pub open spec fn filled(inner_w: int, percent: Option<u8>) -> int {
    if shown_percent(percent) == 0 {
        0
    } else {
        at_least((inner_w * shown_percent(percent) + 50) / 100, 1)
    }
}

/// Pixels of the battery's `inner_w` to fill for `percent`: none for a
/// placeholder or 0%, otherwise at least one so a nearly flat battery still shows
/// a sliver.
pub fn fill_width(inner_w: i32, percent: Option<u8>) -> (r: i32)
    requires
        i32::MIN <= inner_w * shown_percent(percent),
        inner_w * shown_percent(percent) + 50 <= i32::MAX,
    ensures
        r == filled(inner_w as int, percent),
{
    match percent {
        Some(p) => if p > 0 {
            let share: i32 = if p > 100 {
                100
            } else {
                p as i32
            };
            let width: i32 = (inner_w * share + 50) / 100;
            if width > 1 {
                width
            } else {
                1
            }
        } else {
            0
        },
        None => 0,
    }
}

proof fn lemma_share(inner_w: int, share: int)
    requires
        0 <= share <= 100,
    ensures
        inner_w >= 0 ==> 0 <= inner_w * share <= inner_w * 100,
        inner_w < 0 ==> inner_w * 100 <= inner_w * share <= 0,
{
    assert(inner_w >= 0 ==> 0 <= inner_w * share <= inner_w * 100) by (nonlinear_arith)
        requires
            0 <= share <= 100,
    ;
    assert(inner_w < 0 ==> inner_w * 100 <= inner_w * share <= 0) by (nonlinear_arith)
        requires
            0 <= share <= 100,
    ;
}

pub(crate) proof fn lemma_filled(inner_w: int, percent: Option<u8>)
    ensures
        inner_w >= 0 ==> 0 <= inner_w * shown_percent(percent) <= inner_w * 100,
        inner_w < 0 ==> inner_w * 100 <= inner_w * shown_percent(percent) <= 0,
        0 <= filled(inner_w, percent),
        inner_w >= 1 ==> filled(inner_w, percent) <= inner_w,
        inner_w < 1 ==> filled(inner_w, percent) <= 1,
{
    lemma_share(inner_w, shown_percent(percent));
}

/// The fill stays inside the battery, shows at least a sliver of any charge, is
/// complete at 100%, and never shrinks when the charge grows.
pub proof fn law_fill_width(inner_w: int, p: u8, q: u8)
    requires
        inner_w >= 1,
        0 < p <= q,
    ensures
        1 <= filled(inner_w, Some(p)) <= filled(inner_w, Some(q)) <= inner_w,
        p >= 100 ==> filled(inner_w, Some(p)) == inner_w,
{
    let sp = if p > 100 {
        100
    } else {
        p as int
    };
    let sq = if q > 100 {
        100
    } else {
        q as int
    };
    lemma_share(inner_w, sp);
    lemma_share(inner_w, sq);
    assert(inner_w * sp <= inner_w * sq) by (nonlinear_arith)
        requires
            sp <= sq,
            inner_w >= 1,
    ;
}

// ---------------------------------------------------------------------------
// Proportions
/// At every size: a line of a sixteenth of the icon, one pixel at least. With a
/// glyph, a body of ten by six sixteenths, centred, at the top or at the bottom,
/// and a gap of an eighth, two rows at least; the digits get the other rows, up to
/// half the icon tall. Without one they get the whole icon, up to ten sixteenths
/// tall. They are fourteen sixteenths wide at most.
pub proof fn law_layout_proportions(size: int, glyph: BatteryGlyph)
    requires
        1 <= size,
        size * 14 <= i32::MAX,
    ensures
        ({
            let l = layout_of(size, glyph);
            &&& size < 32 ==> l.line == 1
            &&& size >= 16 ==> 16 * l.line <= size < 16 * l.line + 16
            &&& 16 * l.max_w <= 14 * size < 16 * l.max_w + 16
        }),
        ({
            let l = layout_of(size, BatteryGlyph::Hidden);
            &&& l.body_w == 0
            &&& l.body_h == 0
            &&& l.text_top == 0
            &&& l.text_h == size
            &&& 16 * l.max_h <= 10 * size < 16 * l.max_h + 16
        }),
        glyph != BatteryGlyph::Hidden ==> {
            let l = layout_of(size, glyph);
            &&& 16 * l.body_w <= 10 * size < 16 * l.body_w + 16
            &&& 16 * l.body_h <= 6 * size < 16 * l.body_h + 16
            &&& 0 <= (size - l.body_w - l.body_x) - l.body_x <= 1
            &&& 2 * l.max_h <= size < 2 * l.max_h + 2
        },
        ({
            let l = layout_of(size, BatteryGlyph::Above);
            let gap = l.text_top - l.body_h;
            &&& l.body_y == 0
            &&& l.text_top + l.text_h == size
            &&& size < 24 ==> gap == 2
            &&& size >= 24 ==> 8 * gap <= size < 8 * gap + 8
        }),
        ({
            let l = layout_of(size, BatteryGlyph::Below);
            let gap = l.body_y - l.text_h;
            &&& l.text_top == 0
            &&& l.body_y + l.body_h == size
            &&& size < 24 ==> gap == 2
            &&& size >= 24 ==> 8 * gap <= size < 8 * gap + 8
        }),
{
}

/// The fill is the percentage's share of the inside, to the nearest pixel, but at
/// least one pixel for any charge and none for 0% or a placeholder; above 100% it
/// is that of 100%.
pub proof fn law_fill_is_the_share(inner_w: int, p: u8)
    requires
        inner_w >= 1,
    ensures
        filled(inner_w, None) == 0,
        filled(inner_w, Some(0)) == 0,
        1 <= p <= 100 && inner_w * p >= 50 ==> inner_w * p - 50 < 100 * filled(inner_w, Some(p))
            <= inner_w * p + 50,
        1 <= p <= 100 && inner_w * p < 50 ==> filled(inner_w, Some(p)) == 1,
        p > 100 ==> filled(inner_w, Some(p)) == inner_w,
{
    assert(inner_w * 100 == 100 * inner_w);
    assert(p >= 1 ==> inner_w * p >= 1) by (nonlinear_arith)
        requires
            inner_w >= 1,
    ;
}

} // verus!
