//! The taskbar's colour: where to read it, what to make of the pixels read, and
//! remembering it from one drawing to the next.
use vstd::prelude::*;

use crate::color::{
    byte0, byte1, byte2, colorref_channels, colorref_rgb, join_bytes, pixel_channels,
    pixel_of,
};

verus! {

// Taskbar colours assumed when the real one can't be read.
pub const LIGHT_TASKBAR: u32 = 0x00EEEEEE;

pub const DARK_TASKBAR: u32 = 0x001F1F1F;

/// What a screen read gives for a pixel that can't be read (CLR_INVALID).
pub const INVALID_COLOR: u32 = 0xFFFFFFFF;

/// The remembered colour before the first read.
pub const NO_TASKBAR_COLOR: u32 = 0xFFFFFFFF;

/// Set in a remembered colour that was read in Light mode.
pub const LIGHT_TAG: u32 = 0x0100_0000;

/// A rectangle of the screen.
#[derive(Clone, Copy, Debug, PartialEq, Eq, Structural)]
pub struct ScreenRect {
    pub left: i32,
    pub top: i32,
    pub right: i32,
    pub bottom: i32,
}

/// Division that rounds toward zero.
pub open spec fn toward_zero(n: int, d: int) -> int {
    if n >= 0 {
        n / d
    } else {
        -((-n) / d)
    }
}

/// Whether a registry read says that the taskbar is light.
pub open spec fn light_mode(status: u32, value: u32) -> bool {
    status == 0 && value != 0
}

/// Whether the taskbar is light: a stored value that could be read (`status` 0)
/// and is not zero. A missing value means dark, the default.
pub fn taskbar_is_light(status: u32, value: u32) -> (r: bool)
    ensures
        r == light_mode(status, value),
{
    status == 0 && value != 0
}

/// The notification area, or the whole taskbar.
pub open spec fn tray_area(tray: Option<ScreenRect>, bar: Option<ScreenRect>) -> Option<ScreenRect> {
    if tray is Some && tray->0.right - tray->0.left >= 16 {
        tray
    } else {
        bar
    }
}

/// Screen rectangle of the notification area, or of the whole taskbar when there
/// is no classic notification window or it is too narrow to be one.
pub fn tray_rect(tray: Option<ScreenRect>, bar: Option<ScreenRect>) -> (r: Option<ScreenRect>)
    requires
        tray matches Some(t) ==> i32::MIN <= t.right - t.left <= i32::MAX,
    ensures
        r == tray_area(tray, bar),
{
    match tray {
        Some(t) => if t.right - t.left >= 16 {
            Some(t)
        } else {
            bar
        },
        None => bar,
    }
}

/// The columns to read of the taskbar.
pub open spec fn sample_columns(tray: ScreenRect) -> Seq<i32> {
    seq![
        (tray.left + 2) as i32,
        toward_zero(tray.left + tray.right, 2) as i32,
        (tray.right - 3) as i32,
    ]
}

/// Where to read the taskbar's colour: three columns and the row they share. The
/// top rows of the taskbar hold no icons or text.
pub fn sample_points(tray: ScreenRect) -> (r: ([i32; 3], i32))
    requires
        tray.left + 2 <= i32::MAX,
        tray.right - 3 >= i32::MIN,
        i32::MIN <= tray.left + tray.right <= i32::MAX,
        tray.top + 2 <= i32::MAX,
    ensures
        r.0@ == sample_columns(tray),
        r.1 == tray.top + 2,
{
    ([tray.left + 2, (tray.left + tray.right) / 2, tray.right - 3], tray.top + 2)
}

/// The usual shade of a light or dark taskbar.
pub open spec fn usual_shade(light: bool) -> u32 {
    if light {
        LIGHT_TASKBAR
    } else {
        DARK_TASKBAR
    }
}

fn fallback(light: bool) -> (r: u32)
    ensures
        r == usual_shade(light),
{
    if light {
        LIGHT_TASKBAR
    } else {
        DARK_TASKBAR
    }
}

/// The middle one of three values.
pub open spec fn median(a: int, b: int, c: int) -> int {
    if (b <= a <= c) || (c <= a <= b) {
        a
    } else if (a <= b <= c) || (c <= b <= a) {
        b
    } else {
        c
    }
}

/// Brightness of a COLORREF, 0 to 255.
pub open spec fn luma(c: u32) -> int {
    (byte0(c) * 299 + byte1(c) * 587 + byte2(c) * 114) / 1000
}

/// The per-channel median of three colours.
pub open spec fn median_color(s: Seq<u32>) -> u32 {
    pixel_of(
        median(byte2(s[0]), byte2(s[1]), byte2(s[2])),
        median(byte1(s[0]), byte1(s[1]), byte1(s[2])),
        median(byte0(s[0]), byte0(s[1]), byte0(s[2])),
    )
}

/// Whether a colour looks like a light (or dark) taskbar.
pub open spec fn plausible(color: u32, light: bool) -> bool {
    if light {
        luma(color) >= 150
    } else {
        luma(color) <= 100
    }
}

/// The taskbar's colour by three screen samples, or the usual shade where they
/// can't be had or don't look right.
pub open spec fn color_of_samples(light: bool, samples: Option<Seq<u32>>) -> u32 {
    match samples {
        Some(s) => if s[0] == INVALID_COLOR || s[1] == INVALID_COLOR || s[2] == INVALID_COLOR {
            usual_shade(light)
        } else if plausible(median_color(s), light) {
            median_color(s)
        } else {
            usual_shade(light)
        },
        None => usual_shade(light),
    }
}

fn middle(a: i32, b: i32, c: i32) -> (r: u32)
    requires
        0 <= a < 256,
        0 <= b < 256,
        0 <= c < 256,
    ensures
        r == median(a as int, b as int, c as int),
        r < 256,
{
    if (b <= a && a <= c) || (c <= a && a <= b) {
        a as u32
    } else if (a <= b && b <= c) || (c <= b && b <= a) {
        b as u32
    } else {
        c as u32
    }
}

pub open spec fn samples_view(samples: Option<[u32; 3]>) -> Option<Seq<u32>> {
    match samples {
        Some(s) => Some(s@),
        None => None,
    }
}

/// The taskbar's colour beside the tray, from three pixels read off the screen
/// (`None` when there is no taskbar). Falls back to the theme's usual shade when
/// one couldn't be read or they don't look like a `light` (or dark) taskbar, e.g.
/// while a fullscreen game covers it. The per-channel median is taken in case one
/// sample hit something drawn.
pub fn taskbar_color(light: bool, samples: Option<[u32; 3]>) -> (r: u32)
    ensures
        r == color_of_samples(light, samples_view(samples)),
        r < 0x100_0000,
{
    let s = match samples {
        Some(s) => s,
        None => return fallback(light),
    };
    if s[0] == INVALID_COLOR || s[1] == INVALID_COLOR || s[2] == INVALID_COLOR {
        return fallback(light);
    }
    let (c0, c1, c2) = (colorref_rgb(s[0]), colorref_rgb(s[1]), colorref_rgb(s[2]));
    let color = join_bytes(
        middle(c0[2], c1[2], c2[2]),
        middle(c0[1], c1[1], c2[1]),
        middle(c0[0], c1[0], c2[0]),
    );
    let rgb = colorref_rgb(color);
    let brightness: i32 = (rgb[0] * 299 + rgb[1] * 587 + rgb[2] * 114) / 1000;
    if (light && brightness >= 150) || (!light && brightness <= 100) {
        color
    } else {
        fallback(light)
    }
}

/// The taskbar's colour always looks like the mode it is read in.
pub proof fn law_taskbar_color_is_plausible(light: bool, samples: Option<Seq<u32>>)
    ensures
        plausible(color_of_samples(light, samples), light),
{
}

/// What is remembered of a taskbar colour read in one mode.
pub open spec fn tagged(color: u32, light: bool) -> u32 {
    if light {
        (color + LIGHT_TAG) as u32
    } else {
        color
    }
}

/// The taskbar colour that is used, in a mode, with what is remembered.
pub open spec fn recalled(stored: u32, light: bool) -> u32 {
    if stored != NO_TASKBAR_COLOR && (stored as int / LIGHT_TAG as int % 2 == 1) == light {
        (stored as int % LIGHT_TAG as int) as u32
    } else {
        usual_shade(light)
    }
}

/// Judge the taskbar's colour from what was read off the screen, as the value to
/// remember for the icon: the colour, tagged if it was read in Light mode.
pub fn refresh_taskbar_color(light: bool, samples: Option<[u32; 3]>) -> (r: u32)
    ensures
        r == tagged(color_of_samples(light, samples_view(samples)), light),
{
    let color = taskbar_color(light, samples);
    let tag: u32 = if light {
        LIGHT_TAG
    } else {
        0
    };
    assert(color | tag == color + tag) by (bit_vector)
        requires
            color < 0x100_0000,
            tag == 0 || tag == 0x0100_0000,
    ;
    color | tag
}

/// The remembered taskbar colour if it was read in the current mode, otherwise
/// that mode's usual shade.
pub fn remembered_or_fallback(stored: u32, light: bool) -> (r: u32)
    ensures
        r == recalled(stored, light),
{
    let tag: u32 = if light {
        LIGHT_TAG
    } else {
        0
    };
    assert(stored & 0x0100_0000 == if stored / 0x0100_0000 % 2 == 1 {
        0x0100_0000u32
    } else {
        0
    }) by (bit_vector);
    assert(stored & 0x00FF_FFFF == stored % 0x0100_0000) by (bit_vector);
    if stored != NO_TASKBAR_COLOR && stored & LIGHT_TAG == tag {
        stored & 0x00FF_FFFF
    } else {
        fallback(light)
    }
}

proof fn lemma_color_of_samples_is_24_bit(light: bool, samples: Option<Seq<u32>>)
    ensures
        color_of_samples(light, samples) < 0x100_0000,
{
}

/// A taskbar colour read in one mode is used as it was read in that mode, and
/// never in the other one.
pub proof fn law_remembered_color_applies_to_its_mode(
    read_light: bool,
    samples: Option<Seq<u32>>,
    light: bool,
)
    ensures
        recalled(tagged(color_of_samples(read_light, samples), read_light), light) == (if light
            == read_light {
            color_of_samples(read_light, samples)
        } else {
            usual_shade(light)
        }),
{
    lemma_color_of_samples_is_24_bit(read_light, samples);
}

/// Before the first read, each mode's usual shade is used.
pub proof fn law_nothing_remembered(light: bool)
    ensures
        recalled(NO_TASKBAR_COLOR, light) == usual_shade(light),
{
}

// ---------------------------------------------------------------------------
// What is read off the screen
/// Whether `m` is the middle one of three numbers.
pub open spec fn is_middle(m: int, a: int, b: int, c: int) -> bool {
    &&& m == a || m == b || m == c
    &&& (m <= a && m <= b) || (m <= b && m <= c) || (m <= a && m <= c)
    &&& (m >= a && m >= b) || (m >= b && m >= c) || (m >= a && m >= c)
}

/// The taskbar's colour: the middle one of three samples in each channel, where all
/// were read and its brightness (299 parts of red, 587 of green and 114 of blue in
/// 1000) is 150 or more for a light taskbar, 100 or less for a dark one. Else
/// #EEEEEE for a light and #1F1F1F for a dark one.
#[verifier::spinoff_prover]
#[verifier::rlimit(40)]
pub proof fn law_taskbar_color(light: bool, s: Seq<u32>, c: int)
    requires
        s.len() == 3,
        0 <= c < 3,
    ensures
        ({
            let color = color_of_samples(light, Some(s));
            let channels = colorref_channels(median_color(s));
            let brightness = (299 * channels[0] + 587 * channels[1] + 114 * channels[2]) / 1000;
            let usual = if light {
                0x00EE_EEEEu32
            } else {
                0x001F_1F1F
            };
            let all_read = s[0] != 0xFFFF_FFFF && s[1] != 0xFFFF_FFFF && s[2] != 0xFFFF_FFFF;
            let suits = if light {
                brightness >= 150
            } else {
                brightness <= 100
            };
            &&& color_of_samples(light, None) == usual
            &&& !(all_read && suits) ==> color == usual
            &&& all_read && suits ==> color == median_color(s)
            &&& median_color(s) < 0x100_0000
            &&& is_middle(
                channels[c] as int,
                colorref_channels(s[0])[c] as int,
                colorref_channels(s[1])[c] as int,
                colorref_channels(s[2])[c] as int,
            )
        }),
{
    let m = |i: int|
        median(
            colorref_channels(s[0])[i] as int,
            colorref_channels(s[1])[i] as int,
            colorref_channels(s[2])[i] as int,
        );
    let color = median_color(s);
    let (r, g, b) = (m(0), m(1), m(2));
    crate::color::law_pixel_of(b, g, r);
    crate::color::law_channels(color);
    assert(pixel_channels(color) == seq![b as i32, g as i32, r as i32]);
    assert(colorref_channels(color) == seq![r as i32, g as i32, b as i32]);
}

/// Of whatever is stored, bit 24 alone says the mode and the 24 bits below it the
/// colour; in the other mode, or with nothing stored, it is the usual shade.
pub proof fn law_stored_bits(rest: u32, tag: u32, color: u32, light: bool)
    requires
        rest < 128,
        tag < 2,
        color < 0x100_0000,
        (rest * 2 + tag) * 0x100_0000 + color != 0xFFFF_FFFF,
    ensures
        ({
            let stored = ((rest * 2 + tag) * 0x100_0000 + color) as u32;
            &&& light == (tag == 1) ==> recalled(stored, light) == color
            &&& light && tag == 0 ==> recalled(stored, light) == 0x00EE_EEEE
            &&& !light && tag == 1 ==> recalled(stored, light) == 0x001F_1F1F
            &&& recalled(0xFFFF_FFFF, true) == 0x00EE_EEEE
            &&& recalled(0xFFFF_FFFF, false) == 0x001F_1F1F
        }),
{
}

/// A remembered colour has bit 24 set just where it was read in Light mode, and is
/// otherwise the colour.
pub proof fn law_remembered_tag(color: u32)
    requires
        color < 0x100_0000,
    ensures
        tagged(color, true) == color + 0x100_0000,
        tagged(color, false) == color,
        recalled(tagged(color, true), true) == color,
        recalled(tagged(color, false), false) == color,
        recalled(tagged(color, true), false) == 0x001F_1F1F,
        recalled(tagged(color, false), true) == 0x00EE_EEEE,
{
}

/// The taskbar is light just where a value was read and is not zero.
pub proof fn law_light_mode(status: u32, value: u32)
    ensures
        light_mode(0, 0) == false,
        value > 0 ==> light_mode(0, value),
        status > 0 ==> !light_mode(status, value),
{
}

/// The notification area counts from 16 columns on; else the whole taskbar does.
pub proof fn law_tray_area(t: ScreenRect, bar: Option<ScreenRect>)
    ensures
        t.left + 16 <= t.right ==> tray_area(Some(t), bar) == Some(t),
        t.left + 16 > t.right ==> tray_area(Some(t), bar) == bar,
        tray_area(None, bar) == bar,
{
}

/// The columns to read are the third from the left, the middle one and the third
/// from the right.
pub proof fn law_sample_columns(tray: ScreenRect)
    requires
        tray.left + 2 <= i32::MAX,
        tray.right - 3 >= i32::MIN,
        i32::MIN <= tray.left + tray.right <= i32::MAX,
    ensures
        ({
            let x = sample_columns(tray);
            let ends = tray.left + tray.right;
            &&& x.len() == 3
            &&& x[0] - tray.left == 2
            &&& tray.right - 1 - x[2] == 2
            &&& ends >= 0 ==> 0 <= ends - 2 * x[1] <= 1
            &&& ends < 0 ==> -1 <= ends - 2 * x[1] <= 0
        }),
{
}

} // verus!
