//! The tray icon: the battery percentage as text, with or without a glyph.
//!
//! The digits are drawn the way the taskbar clock is: at the tray's real pixel
//! size, with the user's font smoothing, onto the taskbar's own colour. That is
//! then turned back into colour plus alpha, so the icon matches exactly over that
//! colour and still blends sensibly if the taskbar's tint shifts a little.
use vstd::prelude::*;

use crate::color::{
    colorref_channels, colorref_rgb, icon_pixel, light_shade, light_variant, pixel_channels,
    pixel_rgb, unblend,
};
use crate::glyph::{outline_pixel, paint_battery, painted};
use crate::layout::{filled, layout, layout_of, BatteryGlyph};
use crate::taskbar::{recalled, remembered_or_fallback};
use crate::text::{byte_value, decimal, parse_byte};

verus! {

/// Side of a tray icon at 100% scaling.
pub const DEFAULT_SIZE: i32 = 16;

/// The font smoothing type that stands for ClearType.
pub const SMOOTHING_CLEARTYPE: u32 = 2;

/// Font qualities, as the font is created with.
pub const QUALITY_NONANTIALIASED: u32 = 3;

pub const QUALITY_ANTIALIASED: u32 = 4;

pub const QUALITY_CLEARTYPE_NATURAL: u32 = 6;

/// Side of a tray icon.
pub open spec fn side_of(metric: i32) -> i32 {
    if metric > 0 {
        metric
    } else {
        DEFAULT_SIZE
    }
}

/// Side of a tray icon, by the system's small icon width at the taskbar's DPI.
pub fn icon_size(metric: i32) -> (r: i32)
    ensures
        r == side_of(metric),
        r > 0,
{
    if metric > 0 {
        metric
    } else {
        DEFAULT_SIZE
    }
}

/// The font quality of a font smoothing setting.
pub open spec fn quality_of(on: i32, kind: u32) -> u32 {
    if on == 0 {
        QUALITY_NONANTIALIASED
    } else if kind == SMOOTHING_CLEARTYPE {
        QUALITY_CLEARTYPE_NATURAL
    } else {
        QUALITY_ANTIALIASED
    }
}

/// The font quality matching the user's font smoothing setting, so the digits are
/// smoothed like the clock beside them.
pub fn text_quality(on: i32, kind: u32) -> (r: u32)
    ensures
        r == quality_of(on, kind),
{
    if on == 0 {
        QUALITY_NONANTIALIASED
    } else if kind == SMOOTHING_CLEARTYPE {
        QUALITY_CLEARTYPE_NATURAL
    } else {
        QUALITY_ANTIALIASED
    }
}

/// The text's colour on a taskbar that is light or dark.
pub open spec fn text_color_of(color: u32, light: bool) -> u32 {
    if light {
        light_shade(color)
    } else {
        color
    }
}

/// The text and background COLORREFs of an icon in palette colour `color`, on a
/// taskbar that is light or dark, with the taskbar colour remembered as `stored`.
pub fn icon_colors(color: u32, light: bool, stored: u32) -> (r: (u32, u32))
    ensures
        r.0 == text_color_of(color, light),
        r.1 == recalled(stored, light),
{
    let fg = if light {
        light_variant(color)
    } else {
        color
    };
    (fg, remembered_or_fallback(stored, light))
}

/// A pixel of an icon's drawing once the glyph, if any, is painted.
pub open spec fn with_glyph(
    text: Seq<char>,
    size: int,
    glyph: BatteryGlyph,
    fg: u32,
    bg: u32,
    drawn: Seq<u32>,
    p: int,
) -> u32 {
    if glyph == BatteryGlyph::Hidden {
        drawn[p]
    } else {
        painted(layout_of(size, glyph), byte_value(text), fg, bg, p % size, p / size, drawn[p])
    }
}

/// The pixels (0xAARRGGBB) of the icon for a text drawn in `fg` over `bg`.
pub open spec fn icon_of(
    text: Seq<char>,
    size: int,
    glyph: BatteryGlyph,
    fg: u32,
    bg: u32,
    drawn: Seq<u32>,
) -> Seq<u32> {
    Seq::new(
        drawn.len(),
        |p: int|
            icon_pixel(
                pixel_channels(with_glyph(text, size, glyph, fg, bg, drawn, p)),
                colorref_channels(fg),
                colorref_channels(bg),
            ),
    )
}

/// The pixels of the tray icon for `text`, the battery percentage or a
/// placeholder such as "…" (shown with an empty battery), from `drawn`, the text
/// drawn in COLORREF `fg` over COLORREF `bg`.
pub fn battery_icon(
    text: &str,
    size: i32,
    glyph: BatteryGlyph,
    fg: u32,
    bg: u32,
    drawn: Vec<u32>,
) -> (r: Vec<u32>)
    requires
        1 <= size <= 46340,
        drawn@.len() == size * size,
    ensures
        r@ == icon_of(text@, size as int, glyph, fg, bg, drawn@),
{
    let ghost before = drawn@;
    let mut drawn = drawn;
    if glyph != BatteryGlyph::Hidden {
        let l = layout(size, glyph);
        paint_battery(drawn.as_mut_slice(), size, &l, parse_byte(text), fg, bg);
    }
    let (fg_rgb, bg_rgb) = (colorref_rgb(fg), colorref_rgb(bg));
    let mut out: Vec<u32> = Vec::new();
    let mut i: usize = 0;
    while i < drawn.len()
        invariant
            drawn@.len() == before.len(),
            forall|p: int|
                0 <= p < before.len() ==> #[trigger] drawn@[p] == with_glyph(
                    text@,
                    size as int,
                    glyph,
                    fg,
                    bg,
                    before,
                    p,
                ),
            fg_rgb@ == colorref_channels(fg),
            bg_rgb@ == colorref_channels(bg),
            crate::color::is_rgb(fg_rgb@),
            crate::color::is_rgb(bg_rgb@),
            i <= drawn.len(),
            out@ == icon_of(text@, size as int, glyph, fg, bg, before).take(i as int),
        decreases drawn.len() - i,
    {
        out.push(unblend(pixel_rgb(drawn[i]), fg_rgb, bg_rgb));
        let ghost all = icon_of(text@, size as int, glyph, fg, bg, before);
        assert(all.take(i + 1) == all.take(i as int).push(all[i as int]));
        i += 1;
    }
    assert(out@ == icon_of(text@, size as int, glyph, fg, bg, before));
    out
}

/// Bytes of an icon's AND mask: one bit per pixel, each row padded to 16 bits.
pub open spec fn mask_len(size: int) -> int {
    (size + 15) / 16 * 2 * size
}

/// The all-zero AND mask of a `size`-px icon. Windows uses the alpha channel when
/// any pixel is not transparent; the mask's contents are defined anyway.
pub fn mask_bits(size: i32) -> (r: Vec<u8>)
    requires
        1 <= size <= 46340,
    ensures
        r@ == Seq::new(mask_len(size as int) as nat, |i: int| 0u8),
{
    let row_bytes: i32 = (size + 15) / 16 * 2;
    proof {
        assert(0 <= row_bytes * size <= 5794 * 46340) by (nonlinear_arith)
            requires
                0 <= row_bytes <= 5794,
                1 <= size <= 46340,
        ;
    }
    vec![0u8; (row_bytes * size) as usize]
}

/// A background pixel that no glyph covers is transparent in the icon.
#[verifier::spinoff_prover]
#[verifier::rlimit(40)]
pub proof fn law_background_shows_through(
    text: Seq<char>,
    size: int,
    glyph: BatteryGlyph,
    fg: u32,
    bg: u32,
    drawn: Seq<u32>,
    p: int,
)
    requires
        0 <= p < drawn.len(),
        drawn[p] == crate::color::pixel_of_colorref(bg),
        with_glyph(text, size, glyph, fg, bg, drawn, p) == drawn[p],
    ensures
        icon_of(text, size, glyph, fg, bg, drawn)[p] == 0,
{
    crate::color::law_channels(bg);
    crate::color::law_channels(fg);
    crate::color::law_background_is_transparent(colorref_channels(fg), colorref_channels(bg));
}

/// A percentage shown as text fills the glyph to that percentage, and a
/// placeholder leaves it empty.
pub proof fn law_text_decides_the_fill(percent: u8)
    ensures
        byte_value(decimal(percent as nat)) == Some(percent),
        byte_value(seq!['…']) is None,
        byte_value(seq!['?']) is None,
{
    crate::text::law_decimal_reads_back(percent);
    assert(!crate::text::is_digit(seq!['…'][0]));
    assert(!crate::text::is_digit(seq!['?'][0]));
}

// ---------------------------------------------------------------------------
// What the icon shows
/// The colour that an icon pixel has for a bitmap pixel drawn in `fg` over `bg`.
spec fn unblended(px: u32, fg: u32, bg: u32) -> u32 {
    icon_pixel(pixel_channels(px), colorref_channels(fg), colorref_channels(bg))
}

/// An icon with a glyph, above as well as below the number, shows the outline and
/// terminal in the outline's colour, the inside filled to the percentage that the
/// text writes in the text's colour, and elsewhere the text as drawn. Without one
/// it shows the text as drawn everywhere.
#[verifier::spinoff_prover]
#[verifier::rlimit(40)]
pub proof fn law_icon_shows_the_glyph(
    text: Seq<char>,
    size: int,
    glyph: BatteryGlyph,
    fg: u32,
    bg: u32,
    drawn: Seq<u32>,
    x: int,
    y: int,
)
    requires
        1 <= size,
        size * 14 <= i32::MAX,
        drawn.len() == size * size,
        0 <= x < size,
        0 <= y < size,
    ensures
        ({
            let p = y * size + x;
            let px = icon_of(text, size, glyph, fg, bg, drawn)[p];
            let l = layout_of(size, glyph);
            let text_color = icon_pixel(
                colorref_channels(fg),
                colorref_channels(fg),
                colorref_channels(bg),
            );
            let outline_color = icon_pixel(
                pixel_channels(outline_pixel(fg, bg)),
                colorref_channels(fg),
                colorref_channels(bg),
            );
            let as_drawn = icon_pixel(
                pixel_channels(drawn[p]),
                colorref_channels(fg),
                colorref_channels(bg),
            );
            let on_glyph = glyph == BatteryGlyph::Above || glyph == BatteryGlyph::Below;
            &&& icon_of(text, size, glyph, fg, bg, drawn).len() == size * size
            &&& on_glyph && l.in_fill(byte_value(text), x, y) ==> px == text_color
            &&& on_glyph && (l.on_outline(x, y) || l.on_terminal(x, y)) ==> px == outline_color
            &&& on_glyph && !l.in_fill(byte_value(text), x, y) && !l.on_outline(x, y)
                && !l.on_terminal(x, y) ==> px == as_drawn
            &&& glyph == BatteryGlyph::Hidden ==> px == as_drawn
        }),
{
    let l = layout_of(size, glyph);
    let p = y * size + x;
    crate::glyph::lemma_position(x, y, size);
    crate::layout::law_layout_fits(size, glyph);
    crate::layout::lemma_filled(l.body_w - 2 * l.line, byte_value(text));
    crate::color::law_channels(fg);
    assert(pixel_channels(crate::color::pixel_of_colorref(fg)) == colorref_channels(fg));
    assert(icon_of(text, size, glyph, fg, bg, drawn)[p] == unblended(
        with_glyph(text, size, glyph, fg, bg, drawn, p),
        fg,
        bg,
    ));
}

/// The glyph of an icon, stated over rows and columns: with the number's glyph
/// above, the body's rows start at the icon's first one; below, they end at its
/// last one. Its border, a line wide, has the outline's colour, and its inside,
/// between the borders, the text's colour as far as the fill goes.
#[verifier::spinoff_prover]
#[verifier::rlimit(40)]
pub proof fn law_glyph_stands_above_or_below(
    text: Seq<char>,
    size: int,
    fg: u32,
    bg: u32,
    drawn: Seq<u32>,
    x: int,
    y: int,
)
    requires
        1 <= size,
        size * 14 <= i32::MAX,
        drawn.len() == size * size,
    ensures
        ({
            let l = layout_of(size, BatteryGlyph::Above);
            let (w, h, line) = (l.body_w, l.body_h, l.line);
            let (column, row) = (l.body_x + x, y);
            let (upper, lower) = (row * size + column, (size - h + row) * size + column);
            let above = icon_of(text, size, BatteryGlyph::Above, fg, bg, drawn);
            let below = icon_of(text, size, BatteryGlyph::Below, fg, bg, drawn);
            let text_color = icon_pixel(
                colorref_channels(fg),
                colorref_channels(fg),
                colorref_channels(bg),
            );
            let outline_color = icon_pixel(
                pixel_channels(outline_pixel(fg, bg)),
                colorref_channels(fg),
                colorref_channels(bg),
            );
            let border = x < line || x >= w - line || y < line || y >= h - line;
            let in_body = 0 <= x < w && 0 <= y < h;
            &&& in_body && border ==> above[upper] == outline_color && below[lower] == outline_color
            &&& in_body && !border && x - line < filled(w - 2 * line, byte_value(text))
                ==> above[upper] == text_color && below[lower] == text_color
        }),
{
    let l = layout_of(size, BatteryGlyph::Above);
    let (column, row) = (l.body_x + x, y);
    crate::layout::law_layout_fits(size, BatteryGlyph::Above);
    crate::layout::law_layout_fits(size, BatteryGlyph::Below);
    if 0 <= x < l.body_w && 0 <= y < l.body_h {
        law_icon_shows_the_glyph(text, size, BatteryGlyph::Above, fg, bg, drawn, column, row);
        law_icon_shows_the_glyph(
            text,
            size,
            BatteryGlyph::Below,
            fg,
            bg,
            drawn,
            column,
            size - l.body_h + row,
        );
    }
}

/// The text of an icon is white, red, green or gray on a dark taskbar and in the
/// matching dark shade on a light one; it is drawn over the remembered taskbar
/// colour where that was read in the same mode, else over the mode's usual shade.
pub proof fn law_icon_colors(color: u32, light: bool, taskbar: u32)
    requires
        taskbar < 0x100_0000,
    ensures
        text_color_of(color, false) == color,
        text_color_of(color, true) == light_shade(color),
        recalled(taskbar, false) == taskbar,
        recalled((taskbar + 0x100_0000) as u32, true) == taskbar,
        recalled(taskbar, true) == 0x00EE_EEEE,
        recalled((taskbar + 0x100_0000) as u32, false) == 0x001F_1F1F,
        recalled(0xFFFF_FFFF, light) == (if light {
            0x00EE_EEEEu32
        } else {
            0x001F_1F1F
        }),
{
}

/// A mask has a bit for each pixel, in rows of whole 16-bit words, and no row has a
/// word too many.
pub proof fn law_mask_len(size: int)
    requires
        1 <= size,
    ensures
        exists|words: int|
            16 * (words - 1) < size <= 16 * words && #[trigger] (words * 2 * size) == mask_len(size),
{
    let words = (size + 15) / 16;
    assert(words * 2 * size == mask_len(size));
}

/// An icon is as large as the system says, 16 pixels where it says nothing. Its
/// text is not smoothed (3) where smoothing is off, else by ClearType (6) where
/// that is the user's kind (2), else plainly (4).
pub proof fn law_icon_settings(metric: i32, on: i32, kind: u32)
    ensures
        metric > 0 ==> side_of(metric) == metric,
        metric <= 0 ==> side_of(metric) == 16,
        on == 0 ==> quality_of(on, kind) == 3,
        on != 0 && kind == 2 ==> quality_of(on, kind) == 6,
        on != 0 && kind != 2 ==> quality_of(on, kind) == 4,
{
}

} // verus!
