//! Colours of the icon: COLORREF and bitmap pixels, the palette, and turning
//! drawn text back into colour plus alpha.
use vstd::arithmetic::mul::lemma_mul_is_distributive_sub;
use vstd::prelude::*;

use crate::single::{half_up, lemma_single_bounds, lemma_single_error, nearest, single};

verus! {

// A COLORREF is 0x00BBGGRR. These suit a dark taskbar; `light_variant` gives the
// light-taskbar shades.
pub const COLOR_NORMAL: u32 = 0x00FFFFFF;  // white

pub const COLOR_LOW: u32 = 0x005050FF;  // red

pub const COLOR_CHARGING: u32 = 0x0078DC50;  // green

pub const COLOR_STALE: u32 = 0x00A0A0A0;  // gray

// Light-taskbar shades from the Windows light palette.
pub const LIGHT_NORMAL: u32 = 0x001A1A1A;  // primary text

pub const LIGHT_LOW: u32 = 0x001C2BC4;  // critical #C42B1C

pub const LIGHT_CHARGING: u32 = 0x000F7B0F;  // success #0F7B0F

pub const LIGHT_STALE: u32 = 0x00707070;  // gray

/// The light-taskbar counterpart of a palette colour.
pub open spec fn light_shade(color: u32) -> u32 {
    if color == COLOR_NORMAL {
        LIGHT_NORMAL
    } else if color == COLOR_LOW {
        LIGHT_LOW
    } else if color == COLOR_CHARGING {
        LIGHT_CHARGING
    } else if color == COLOR_STALE {
        LIGHT_STALE
    } else {
        color
    }
}

/// The light-taskbar counterpart of a palette colour; unknown colours pass through.
pub fn light_variant(color: u32) -> (r: u32)
    ensures
        r == light_shade(color),
{
    if color == COLOR_NORMAL {
        LIGHT_NORMAL
    } else if color == COLOR_LOW {
        LIGHT_LOW
    } else if color == COLOR_CHARGING {
        LIGHT_CHARGING
    } else if color == COLOR_STALE {
        LIGHT_STALE
    } else {
        color
    }
}

/// No palette colour keeps its dark-taskbar shade on a light taskbar.
pub proof fn law_light_palette_differs(color: u32)
    requires
        color == COLOR_NORMAL || color == COLOR_LOW || color == COLOR_CHARGING || color
            == COLOR_STALE,
    ensures
        light_shade(color) != color,
{
}

// ---------------------------------------------------------------------------
// Channels
/// The low, middle and high byte of a 24-bit value.
pub open spec fn byte0(c: u32) -> int {
    c as int % 256
}

pub open spec fn byte1(c: u32) -> int {
    c as int / 256 % 256
}

pub open spec fn byte2(c: u32) -> int {
    c as int / 65536 % 256
}

/// Red, green and blue of a COLORREF.
pub open spec fn colorref_channels(c: u32) -> Seq<i32> {
    seq![byte0(c) as i32, byte1(c) as i32, byte2(c) as i32]
}

/// Red, green and blue of a bitmap pixel (0x00RRGGBB).
pub open spec fn pixel_channels(p: u32) -> Seq<i32> {
    seq![byte2(p) as i32, byte1(p) as i32, byte0(p) as i32]
}

/// The bitmap pixel with these channels.
pub open spec fn pixel_of(r: int, g: int, b: int) -> u32 {
    (r * 65536 + g * 256 + b) as u32
}

/// A COLORREF as a bitmap pixel.
pub open spec fn pixel_of_colorref(c: u32) -> u32 {
    pixel_of(byte0(c), byte1(c), byte2(c))
}

/// Three channel values.
pub open spec fn is_rgb(c: Seq<i32>) -> bool {
    &&& c.len() == 3
    &&& forall|i: int| 0 <= i < 3 ==> 0 <= #[trigger] c[i] <= 255
}

proof fn lemma_bytes(c: u32)
    ensures
        (c & 0xFF) == byte0(c),
        ((c >> 8) & 0xFF) == byte1(c),
        ((c >> 16) & 0xFF) == byte2(c),
{
    assert((c & 0xFF) == c % 256) by (bit_vector);
    assert(((c >> 8) & 0xFF) == c / 256 % 256) by (bit_vector);
    assert(((c >> 16) & 0xFF) == c / 65536 % 256) by (bit_vector);
}

/// `[r, g, b]` of a COLORREF (0x00BBGGRR).
pub fn colorref_rgb(c: u32) -> (r: [i32; 3])
    ensures
        r@ == colorref_channels(c),
        is_rgb(r@),
{
    proof {
        lemma_bytes(c);
    }
    [(c & 0xFF) as i32, ((c >> 8) & 0xFF) as i32, ((c >> 16) & 0xFF) as i32]
}

/// `[r, g, b]` of a bitmap pixel (0x00RRGGBB).
pub fn pixel_rgb(p: u32) -> (r: [i32; 3])
    ensures
        r@ == pixel_channels(p),
        is_rgb(r@),
{
    proof {
        lemma_bytes(p);
    }
    [((p >> 16) & 0xFF) as i32, ((p >> 8) & 0xFF) as i32, (p & 0xFF) as i32]
}

/// Three bytes put together into one value, the first one highest.
pub(crate) fn join_bytes(high: u32, middle: u32, low: u32) -> (r: u32)
    requires
        high < 256,
        middle < 256,
        low < 256,
    ensures
        r == pixel_of(high as int, middle as int, low as int),
        r < 0x100_0000,
        byte2(r) == high,
        byte1(r) == middle,
        byte0(r) == low,
{
    assert(high << 16 | middle << 8 | low == high * 65536 + middle * 256 + low) by (bit_vector)
        requires
            high < 256,
            middle < 256,
            low < 256,
    ;
    high << 16 | middle << 8 | low
}

/// A COLORREF as a bitmap pixel.
pub fn colorref_pixel(c: u32) -> (r: u32)
    ensures
        r == pixel_of_colorref(c),
        pixel_channels(r) == colorref_channels(c),
{
    let rgb = colorref_rgb(c);
    join_bytes(rgb[0] as u32, rgb[1] as u32, rgb[2] as u32)
}

// ---------------------------------------------------------------------------
// Alpha
pub open spec fn clamp(v: int, low: int, high: int) -> int {
    if v < low {
        low
    } else if v > high {
        high
    } else {
        v
    }
}

/// The coverage, out of 255, that one channel shows of text in `fg` drawn over
/// `bg`. Where the two nearly match, it says nothing.
pub open spec fn channel_alpha(drawn: int, fg: int, bg: int) -> int {
    if -24 < fg - bg < 24 {
        0
    } else if fg > bg {
        half_up((255 * clamp(drawn - bg, 0, fg - bg)) as nat, (fg - bg) as nat) as int
    } else {
        half_up((255 * clamp(bg - drawn, 0, bg - fg)) as nat, (bg - fg) as nat) as int
    }
}

pub open spec fn larger(a: int, b: int) -> int {
    if a >= b {
        a
    } else {
        b
    }
}

/// The strongest coverage of the three channels.
pub open spec fn alpha(drawn: Seq<i32>, fg: Seq<i32>, bg: Seq<i32>) -> int {
    larger(
        channel_alpha(drawn[0] as int, fg[0] as int, bg[0] as int),
        larger(
            channel_alpha(drawn[1] as int, fg[1] as int, bg[1] as int),
            channel_alpha(drawn[2] as int, fg[2] as int, bg[2] as int),
        ),
    )
}

/// The channel value that composites over `bg` into `drawn` at alpha `a` out of
/// 255, that is `bg + (drawn - bg) / (a / 255)` in single precision, rounded to
/// the nearest channel value.
pub open spec fn straight_channel(drawn: int, bg: int, a: int) -> int {
    let (am, ap) = single(a as nat, 255);
    if drawn >= bg {
        let (qm, qp) = single(((drawn - bg) * ap) as nat, am);
        let (vm, vp) = single((bg * qp + qm) as nat, qp);
        clamp(half_up(vm, vp) as int, 0, 255)
    } else {
        let (qm, qp) = single(((bg - drawn) * ap) as nat, am);
        if bg * qp <= qm {
            0
        } else {
            let (vm, vp) = single((bg * qp - qm) as nat, qp);
            clamp(half_up(vm, vp) as int, 0, 255)
        }
    }
}

/// The icon pixel (0xAARRGGBB, straight alpha) for a drawn one.
pub open spec fn icon_pixel(drawn: Seq<i32>, fg: Seq<i32>, bg: Seq<i32>) -> u32 {
    let a = alpha(drawn, fg, bg);
    if a == 0 {
        0
    } else {
        (a * 0x100_0000 + pixel_of(
            straight_channel(drawn[0] as int, bg[0] as int, a),
            straight_channel(drawn[1] as int, bg[1] as int, a),
            straight_channel(drawn[2] as int, bg[2] as int, a),
        )) as u32
    }
}

proof fn lemma_half_up_share(n: int, d: int)
    requires
        0 <= n <= d,
        0 < d <= 255,
    ensures
        0 <= half_up((255 * n) as nat, d as nat) <= 255,
{
    assert((2 * (255 * n) + d) / (2 * d) <= 255) by (nonlinear_arith)
        requires
            0 <= n <= d,
            0 < d,
    ;
    assert((2 * (255 * n) + d) / (2 * d) >= 0) by (nonlinear_arith)
        requires
            0 <= n,
            0 < d,
    ;
}

fn coverage(drawn: i32, fg: i32, bg: i32) -> (r: i32)
    requires
        0 <= drawn <= 255,
        0 <= fg <= 255,
        0 <= bg <= 255,
    ensures
        r == channel_alpha(drawn as int, fg as int, bg as int),
        0 <= r <= 255,
{
    let span: i32 = fg - bg;
    if span > -24 && span < 24 {
        return 0;
    }
    let (size, toward): (i32, i32) = if span > 0 {
        (span, drawn - bg)
    } else {
        (-span, bg - drawn)
    };
    let inside: i32 = if toward < 0 {
        0
    } else if toward > size {
        size
    } else {
        toward
    };
    proof {
        lemma_half_up_share(inside as int, size as int);
    }
    (2 * (255 * inside) + size) / (2 * size)
}

fn rounded_channel(m: u128, p: u128) -> (r: u32)
    requires
        m <= 0x100_0000,
        1 <= p < 0x1_0000_0000_0000_0000_0000,
    ensures
        r == clamp(half_up(m as nat, p as nat) as int, 0, 255),
{
    let v: u128 = (2 * m + p) / (2 * p);
    if v > 255 {
        255
    } else {
        v as u32
    }
}

fn straight(drawn: i32, bg: i32, a: i32) -> (r: u32)
    requires
        0 <= drawn <= 255,
        0 <= bg <= 255,
        1 <= a <= 255,
    ensures
        r == straight_channel(drawn as int, bg as int, a as int),
        r <= 255,
{
    let (am, ap) = nearest(a as u128, 255);
    proof {
        lemma_single_bounds(a as nat, 255);
    }
    let diff: u128 = if drawn >= bg {
        (drawn - bg) as u128
    } else {
        (bg - drawn) as u128
    };
    assert(diff * ap <= 255 * 255 * 0x100_0000) by (nonlinear_arith)
        requires
            diff <= 255,
            ap <= 255 * 0x100_0000,
    ;
    let (qm, qp) = nearest(diff * ap, am);
    proof {
        if diff * ap > 0 {
            lemma_single_bounds((diff * ap) as nat, am as nat);
        }
    }
    let base: u128 = bg as u128;
    assert(base * qp <= 255 * qp) by (nonlinear_arith)
        requires
            base <= 255,
    ;
    if drawn >= bg {
        let (vm, vp) = nearest(base * qp + qm, qp);
        proof {
            if base * qp + qm > 0 {
                lemma_single_bounds((base * qp + qm) as nat, qp as nat);
            }
        }
        rounded_channel(vm, vp)
    } else if base * qp <= qm {
        0
    } else {
        let (vm, vp) = nearest(base * qp - qm, qp);
        proof {
            lemma_single_bounds((base * qp - qm) as nat, qp as nat);
        }
        rounded_channel(vm, vp)
    }
}

/// An icon pixel (0xAARRGGBB, straight alpha) that composites over `bg` into
/// `drawn`, a pixel of text in `fg` that was rendered onto `bg`. Alpha is the
/// strongest per-channel coverage, which keeps ClearType's colour fringes;
/// channels where `fg` and `bg` nearly match say nothing about coverage and only
/// get their colour reconstructed.
pub fn unblend(drawn: [i32; 3], fg: [i32; 3], bg: [i32; 3]) -> (r: u32)
    requires
        is_rgb(drawn@),
        is_rgb(fg@),
        is_rgb(bg@),
    ensures
        r == icon_pixel(drawn@, fg@, bg@),
{
    let mut a: i32 = coverage(drawn[0], fg[0], bg[0]);
    let a1: i32 = coverage(drawn[1], fg[1], bg[1]);
    let a2: i32 = coverage(drawn[2], fg[2], bg[2]);
    if a1 > a {
        a = a1;
    }
    if a2 > a {
        a = a2;
    }
    if a == 0 {
        return 0;
    }
    let color = join_bytes(
        straight(drawn[0], bg[0], a),
        straight(drawn[1], bg[1], a),
        straight(drawn[2], bg[2], a),
    );
    let top: u32 = a as u32;
    assert(top << 24 | color == top * 0x100_0000 + color) by (bit_vector)
        requires
            top < 256,
            color < 0x100_0000,
    ;
    top << 24 | color
}

// ---------------------------------------------------------------------------
// Compositing
/// One channel of value `v` and alpha `a` out of 255, drawn over `bg`.
pub open spec fn composite_channel(v: int, a: int, bg: int) -> int {
    half_up((bg * (255 - a) + v * a) as nat, 255) as int
}

/// Whether the value that composites over `bg` into `drawn` at alpha `a` out of 255
/// is not so far out of a channel's range that the nearest one is more than a step
/// off.
spec fn reachable(drawn: int, bg: int, a: int) -> bool {
    -382 <= a * bg + 255 * (drawn - bg) <= 255 * a + 382
}

proof fn lemma_quotient_identity(diff: int, a: int, am: int, ap: int, qm: int, qp: int)
    ensures
        am * (a * qm - 255 * diff * qp) == diff * qp * (a * ap - 255 * am) + a * (qm * am - (diff
            * ap) * qp),
{
    lemma_mul_is_distributive_sub(am, a * qm, 255 * diff * qp);
    lemma_mul_is_distributive_sub(diff * qp, a * ap, 255 * am);
    lemma_mul_is_distributive_sub(a, qm * am, (diff * ap) * qp);
    assert(am * (a * qm) == a * (qm * am)) by (nonlinear_arith);
    assert(am * (255 * diff * qp) == diff * qp * (255 * am)) by (nonlinear_arith);
    assert(diff * qp * (a * ap) == a * ((diff * ap) * qp)) by (nonlinear_arith);
}

proof fn lemma_sum_identity(a: int, v: int, target: int, n: int, qp: int, vm: int, vp: int)
    ensures
        2 * vp * qp * (a * v - target) == a * qp * (2 * vp * v - 2 * vm) + 2 * a * (vm * qp - n
            * vp) + 2 * vp * (a * n - qp * target),
{
    lemma_mul_is_distributive_sub(2 * vp * qp, a * v, target);
    lemma_mul_is_distributive_sub(a * qp, 2 * vp * v, 2 * vm);
    lemma_mul_is_distributive_sub(2 * a, vm * qp, n * vp);
    lemma_mul_is_distributive_sub(2 * vp, a * n, qp * target);
    assert(2 * vp * qp * (a * v) == a * qp * (2 * vp * v)) by (nonlinear_arith);
    assert(2 * vp * qp * target == 2 * vp * (qp * target)) by (nonlinear_arith);
    assert(a * qp * (2 * vm) == 2 * a * (vm * qp)) by (nonlinear_arith);
    assert(2 * a * (n * vp) == 2 * vp * (a * n)) by (nonlinear_arith);
}

/// The quotient of a difference by an alpha, in single precision, is within a
/// 32nd of the exact one.
proof fn lemma_quotient(diff: nat, a: nat)
    requires
        1 <= diff <= 255,
        1 <= a <= 255,
        255 * diff <= 637 * a,
    ensures
        ({
            let (am, ap) = single(a, 255);
            let (qm, qp) = single(diff * ap, am);
            &&& qp >= 0x2000
            &&& qm <= 638 * qp
            &&& -(qp as int) <= 32 * (a * qm - 255 * diff * qp) <= qp
        }),
{
    let (am, ap) = single(a, 255);
    lemma_single_bounds(a, 255);
    lemma_single_error(a, 255);
    let e1: int = a * ap - 255 * am;
    assert(am * 255 == 255 * am) by (nonlinear_arith);
    assert(-255 <= 2 * e1 <= 255);
    let n = diff * ap;
    assert(1 <= n) by (nonlinear_arith)
        requires
            n == diff * ap,
            diff >= 1,
            ap >= 1,
    ;
    assert(n <= 1024 * am) by {
        assert(a * n == diff * (255 * am + e1)) by (nonlinear_arith)
            requires
                n == diff * ap,
                e1 == a * ap - 255 * am,
        ;
        assert(diff * (255 * am + e1) == 255 * diff * am + diff * e1) by (nonlinear_arith);
        assert(255 * diff * am <= 637 * a * am) by (nonlinear_arith)
            requires
                255 * diff <= 637 * a,
        ;
        assert(diff * e1 <= 255 * 128) by (nonlinear_arith)
            requires
                1 <= diff <= 255,
                e1 <= 128,
        ;
        assert(a * n <= a * (1024 * am)) by (nonlinear_arith)
            requires
                a * n <= 637 * a * am + 255 * 128,
                a >= 1,
                am >= 0x80_0000,
        ;
        assert(n <= 1024 * am) by (nonlinear_arith)
            requires
                a * n <= a * (1024 * am),
                a >= 1,
        ;
    }
    let (qm, qp) = single(n, am);
    lemma_single_bounds(n, am);
    lemma_single_error(n, am);
    assert(qp >= 0x2000) by (nonlinear_arith)
        requires
            am * 0x80_0000 <= n * qp,
            n <= 1024 * am,
            am >= 0x80_0000,
    ;
    let e2: int = qm * am - n * qp;
    let x: int = a * qm - 255 * diff * qp;
    lemma_quotient_identity(diff as int, a as int, am as int, ap as int, qm as int, qp as int);
    assert(diff * qp <= 255 * qp) by (nonlinear_arith)
        requires
            diff <= 255,
    ;
    assert(-(128 * 255 * qp) <= diff * qp * e1 <= 128 * 255 * qp) by (nonlinear_arith)
        requires
            0 <= diff * qp <= 255 * qp,
            -128 <= e1 <= 128,
    ;
    assert(-(128 * am) <= a * e2 <= 128 * am) by (nonlinear_arith)
        requires
            -(am as int) <= 2 * e2 <= am,
            1 <= a <= 255,
    ;
    assert(32 * (128 * 255 * qp + 128 * am) <= am * qp) by (nonlinear_arith)
        requires
            am >= 0x80_0000,
            qp >= 0x2000,
    ;
    assert(32 * x <= qp) by (nonlinear_arith)
        requires
            32 * (am * x) <= am * qp,
            am >= 1,
    ;
    assert(-(qp as int) <= 32 * x) by (nonlinear_arith)
        requires
            -(am * qp) <= 32 * (am * x),
            am >= 1,
    ;
    assert(255 * diff * qp <= 637 * a * qp) by (nonlinear_arith)
        requires
            255 * diff <= 637 * a,
    ;
    assert(qm <= 638 * qp) by (nonlinear_arith)
        requires
            a * qm <= 637 * a * qp + qp,
            a >= 1,
    ;
}

/// Rounding the sum of background and quotient to a channel value.
proof fn lemma_rounded_sum(a: nat, target: int, n: nat, qp: nat)
    requires
        1 <= a <= 255,
        1 <= qp,
        0 < n <= 1300 * qp,
        -(qp as int) <= 32 * (a * n - qp * target) <= qp,
    ensures
        -127 <= a * half_up(single(n, qp).0, single(n, qp).1) - target <= 127,
{
    let (vm, vp) = single(n, qp);
    lemma_single_bounds(n, qp);
    lemma_single_error(n, qp);
    assert(vp >= 4096) by (nonlinear_arith)
        requires
            qp * 0x80_0000 <= n * vp,
            n <= 1300 * qp,
            qp >= 1,
    ;
    let v = half_up(vm, vp);
    let e3: int = vm * qp - n * vp;
    let e4: int = a * n - qp * target;
    let e5: int = 2 * vp * v - 2 * vm;
    assert(-(vp as int) <= e5 <= vp) by (nonlinear_arith)
        requires
            v == (2 * vm + vp) / (2 * vp),
            e5 == 2 * vp * v - 2 * vm,
            vp >= 1,
    ;
    let y: int = a * v - target;
    lemma_sum_identity(a as int, v as int, target, n as int, qp as int, vm as int, vp as int);
    assert(a * qp * vp == a * (qp * vp)) by (nonlinear_arith);
    let unit = qp * vp;
    assert(-(255 * unit) <= a * qp * e5 <= 255 * unit) by (nonlinear_arith)
        requires
            -(vp as int) <= e5 <= vp,
            1 <= a <= 255,
            unit == qp * vp,
            qp >= 1,
    ;
    assert(-(255 * qp) <= 2 * a * e3 <= 255 * qp) by (nonlinear_arith)
        requires
            -(qp as int) <= 2 * e3 <= qp,
            1 <= a <= 255,
    ;
    assert(-unit <= 16 * (2 * vp * e4) <= unit) by (nonlinear_arith)
        requires
            -(qp as int) <= 32 * e4 <= qp,
            unit == qp * vp,
            vp >= 1,
    ;
    assert(4096 * qp <= unit) by (nonlinear_arith)
        requires
            unit == qp * vp,
            vp >= 4096,
    ;
    assert(2 * vp * qp * y == 2 * unit * y) by (nonlinear_arith)
        requires
            unit == qp * vp,
    ;
    assert(y < 128) by (nonlinear_arith)
        requires
            2 * unit * y <= 255 * unit + unit / 4,
            unit >= 4096,
    ;
    assert(y > -128) by (nonlinear_arith)
        requires
            2 * unit * y >= -(255 * unit + unit / 4),
            unit >= 4096,
    ;
}

/// A reconstructed channel value, at its alpha, is within 128 / 255 of a channel
/// step of the drawn one, or else as near to it as the range of a channel lets it
/// be.
proof fn lemma_straight_back(drawn: int, bg: int, a: int)
    requires
        0 <= drawn <= 255,
        0 <= bg <= 255,
        1 <= a <= 255,
        reachable(drawn, bg, a),
    ensures
        0 <= straight_channel(drawn, bg, a) <= 255,
        ({
            let target = a * bg + 255 * (drawn - bg);
            if target < -128 {
                straight_channel(drawn, bg, a) == 0
            } else if target > 255 * a + 128 {
                straight_channel(drawn, bg, a) == 255
            } else {
                -128 <= a * straight_channel(drawn, bg, a) - target <= 128
            }
        }),
{
    let target = a * bg + 255 * (drawn - bg);
    let (am, ap) = single(a as nat, 255);
    lemma_single_bounds(a as nat, 255);
    assert(0 <= a * bg <= a * 255) by (nonlinear_arith)
        requires
            0 <= bg <= 255,
            a >= 1,
    ;
    let up = drawn >= bg;
    let diff: nat = (if up {
        drawn - bg
    } else {
        bg - drawn
    }) as nat;
    let (qm, qp) = single(diff * ap, am);
    let x: int = a * qm - 255 * diff * qp;
    if diff == 0 {
        assert(diff * ap == 0) by (nonlinear_arith)
            requires
                diff == 0,
        ;
        assert(qm == 0 && qp == 1);
        assert(255 * diff * qp == 0 && a * qm == 0) by (nonlinear_arith)
            requires
                diff == 0,
                qm == 0,
        ;
    } else {
        lemma_quotient(diff, a as nat);
    }
    let sum: int = if up {
        bg * qp + qm
    } else {
        bg * qp - qm
    };
    assert(bg * qp <= 255 * qp) by (nonlinear_arith)
        requires
            bg <= 255,
    ;
    assert(bg * qp >= 0) by (nonlinear_arith)
        requires
            bg >= 0,
    ;
    let signed: int = if up {
        diff as int
    } else {
        -(diff as int)
    };
    let signed_x: int = if up {
        x
    } else {
        -x
    };
    assert(a * sum - qp * target == signed_x) by {
        if up {
            assert(a * (bg * qp + qm) - qp * (a * bg + 255 * diff) == a * qm - 255 * diff * qp)
                by (nonlinear_arith);
        } else {
            assert(a * (bg * qp - qm) - qp * (a * bg - 255 * diff) == -(a * qm - 255 * diff * qp))
                by (nonlinear_arith);
        }
    }
    if sum > 0 {
        lemma_rounded_sum(a as nat, target, sum as nat, qp);
        let (vm, vp) = single(sum as nat, qp);
        let v = half_up(vm, vp) as int;
        assert(straight_channel(drawn, bg, a) == clamp(v, 0, 255));
        assert(target >= -128) by (nonlinear_arith)
            requires
                a * sum - qp * target == signed_x,
                sum > 0,
                a >= 1,
                32 * signed_x <= qp,
                qp >= 1,
        ;
        if v <= 255 {
            assert(a * v <= a * 255) by (nonlinear_arith)
                requires
                    v <= 255,
                    a >= 1,
            ;
        } else {
            assert(a * v >= a * 255) by (nonlinear_arith)
                requires
                    v > 255,
                    a >= 1,
            ;
        }
    } else {
        assert((2 * 0 + 1) / (2 * 1) == 0int) by (nonlinear_arith);
        assert(straight_channel(drawn, bg, a) == 0);
        assert(target <= 0) by (nonlinear_arith)
            requires
                a * sum - qp * target == signed_x,
                sum <= 0,
                a >= 1,
                32 * signed_x >= -(qp as int),
                qp >= 1,
        ;
    }
}

/// The alpha of an icon pixel.
pub open spec fn pixel_alpha(px: u32) -> int {
    px as int / 0x100_0000
}

proof fn lemma_alpha_reaches(diff: int, span: int)
    requires
        0 <= diff <= span <= 255,
        span > 0,
    ensures
        255 * diff <= half_up((255 * diff) as nat, span as nat) * span + 127,
        diff == span ==> half_up((255 * diff) as nat, span as nat) == 255,
{
    let h = half_up((255 * diff) as nat, span as nat) as int;
    assert(2 * (255 * diff) + span < (h + 1) * (2 * span)) by (nonlinear_arith)
        requires
            h == (2 * (255 * diff) + span) / (2 * span),
            span > 0,
    ;
    assert((h + 1) * (2 * span) == 2 * (h * span) + 2 * span) by (nonlinear_arith);
    if diff == span {
        assert(h == 255) by (nonlinear_arith)
            requires
                h == (2 * (255 * diff) + span) / (2 * span),
                diff == span,
                span > 0,
        ;
    }
}

proof fn lemma_channel_back(drawn: int, bg: int, a: int)
    requires
        0 <= drawn <= 255,
        0 <= bg <= 255,
        0 <= a <= 255,
        reachable(drawn, bg, a),
    ensures
        a == 0 ==> -1 <= bg - drawn <= 1,
        a > 0 ==> -1 <= composite_channel(straight_channel(drawn, bg, a), a, bg) - drawn <= 1,
{
    let target = a * bg + 255 * (drawn - bg);
    if a > 0 {
        lemma_straight_back(drawn, bg, a);
        let v = straight_channel(drawn, bg, a);
        assert(bg * (255 - a) + v * a - 255 * drawn == a * v - target) by (nonlinear_arith)
            requires
                target == a * bg + 255 * (drawn - bg),
        ;
        assert(v * a >= 0) by (nonlinear_arith)
            requires
                v >= 0,
                a >= 0,
        ;
        assert(bg * (255 - a) >= 0) by (nonlinear_arith)
            requires
                bg >= 0,
                a <= 255,
        ;
        assert(v == 0 ==> a * v == 0) by (nonlinear_arith);
        assert(v == 255 ==> a * v == 255 * a) by (nonlinear_arith);
        let sum = bg * (255 - a) + v * a;
        assert(composite_channel(v, a, bg) == (2 * sum + 255) / 510);
    } else {
        assert(a * bg == 0) by (nonlinear_arith)
            requires
                a == 0,
        ;
    }
}

proof fn lemma_alpha_range(drawn: int, fg: int, bg: int)
    requires
        0 <= drawn <= 255,
        0 <= fg <= 255,
        0 <= bg <= 255,
    ensures
        0 <= channel_alpha(drawn, fg, bg) <= 255,
{
    if fg - bg >= 24 {
        lemma_half_up_share(clamp(drawn - bg, 0, fg - bg), fg - bg);
    } else if bg - fg >= 24 {
        lemma_half_up_share(clamp(bg - drawn, 0, bg - fg), bg - fg);
    }
}

/// A pixel of alpha and channels gives them back.
proof fn lemma_unpack(px: u32, a: int, r: int, g: int, b: int)
    requires
        px == a * 0x100_0000 + r * 65536 + g * 256 + b,
        0 <= a <= 255,
        0 <= r <= 255,
        0 <= g <= 255,
        0 <= b <= 255,
    ensures
        pixel_alpha(px) == a,
        pixel_channels(px) == seq![r as i32, g as i32, b as i32],
{
    vstd::arithmetic::div_mod::lemma_fundamental_div_mod_converse(
        px as int,
        256,
        a * 65536 + r * 256 + g,
        b,
    );
    vstd::arithmetic::div_mod::lemma_fundamental_div_mod_converse(
        px as int,
        65536,
        a * 256 + r,
        g * 256 + b,
    );
    vstd::arithmetic::div_mod::lemma_fundamental_div_mod_converse(
        px as int,
        0x100_0000,
        a,
        r * 65536 + g * 256 + b,
    );
}

proof fn lemma_reachable(drawn: int, bg: int, a: int, v: int)
    requires
        0 <= bg <= 255,
        0 <= a <= 255,
        0 <= v <= 255,
        -1 <= composite_channel(v, a, bg) - drawn <= 1,
    ensures
        reachable(drawn, bg, a),
{
    let target = a * bg + 255 * (drawn - bg);
    let sum = bg * (255 - a) + v * a;
    assert(sum - 255 * drawn == a * v - target) by (nonlinear_arith)
        requires
            sum == bg * (255 - a) + v * a,
            target == a * bg + 255 * (drawn - bg),
    ;
    assert(0 <= a * v <= 255 * a) by (nonlinear_arith)
        requires
            0 <= v <= 255,
            a >= 0,
    ;
    assert(bg * (255 - a) >= 0) by (nonlinear_arith)
        requires
            bg >= 0,
            a <= 255,
    ;
    assert(v * a == a * v) by (nonlinear_arith);
    assert(composite_channel(v, a, bg) == (2 * sum + 255) / 510);
}

/// An icon pixel composites over the background into what was drawn, up to one
/// step, in each channel where some value `v` at the pixel's alpha does.
#[verifier::spinoff_prover]
pub proof fn law_unblend_composites_back(
    drawn: Seq<i32>,
    fg: Seq<i32>,
    bg: Seq<i32>,
    c: int,
    v: int,
)
    requires
        is_rgb(drawn),
        is_rgb(fg),
        is_rgb(bg),
        0 <= c < 3,
        0 <= v <= 255,
        -1 <= composite_channel(v, alpha(drawn, fg, bg), bg[c] as int) - drawn[c] <= 1,
    ensures
        ({
            let px = icon_pixel(drawn, fg, bg);
            let back = composite_channel(
                pixel_channels(px)[c] as int,
                pixel_alpha(px),
                bg[c] as int,
            );
            -1 <= back - drawn[c] <= 1
        }),
{
    let a = alpha(drawn, fg, bg);
    lemma_alpha_range(drawn[0] as int, fg[0] as int, bg[0] as int);
    lemma_alpha_range(drawn[1] as int, fg[1] as int, bg[1] as int);
    lemma_alpha_range(drawn[2] as int, fg[2] as int, bg[2] as int);
    lemma_reachable(drawn[c] as int, bg[c] as int, a, v);
    lemma_pixel_back(drawn, fg, bg, c);
}

#[verifier::spinoff_prover]
proof fn lemma_pixel_back(drawn: Seq<i32>, fg: Seq<i32>, bg: Seq<i32>, c: int)
    requires
        is_rgb(drawn),
        is_rgb(fg),
        is_rgb(bg),
        0 <= c < 3,
        reachable(drawn[c] as int, bg[c] as int, alpha(drawn, fg, bg)),
    ensures
        ({
            let px = icon_pixel(drawn, fg, bg);
            let back = composite_channel(
                pixel_channels(px)[c] as int,
                pixel_alpha(px),
                bg[c] as int,
            );
            -1 <= back - drawn[c] <= 1
        }),
{
    let a = alpha(drawn, fg, bg);
    lemma_alpha_range(drawn[0] as int, fg[0] as int, bg[0] as int);
    lemma_alpha_range(drawn[1] as int, fg[1] as int, bg[1] as int);
    lemma_alpha_range(drawn[2] as int, fg[2] as int, bg[2] as int);
    lemma_channel_back(drawn[c] as int, bg[c] as int, a);
    let px = icon_pixel(drawn, fg, bg);
    if a == 0 {
        let b = bg[c] as int;
        assert(b * (255 - 0) + 0 * 0 == 255 * b) by (nonlinear_arith);
        assert(composite_channel(0, 0, b) == (2 * (255 * b) + 255) / 510);
    } else {
        let r = straight_channel(drawn[0] as int, bg[0] as int, a);
        let g = straight_channel(drawn[1] as int, bg[1] as int, a);
        let b = straight_channel(drawn[2] as int, bg[2] as int, a);
        lemma_straight_range(drawn[0] as int, bg[0] as int, a);
        lemma_straight_range(drawn[1] as int, bg[1] as int, a);
        lemma_straight_range(drawn[2] as int, bg[2] as int, a);
        lemma_unpack(px, a, r, g, b);
    }
}

/// A channel that lies between background and text colour, where the two do not
/// nearly match, composites back, whatever the other channels hold.
pub proof fn law_blend_composites_back(drawn: Seq<i32>, fg: Seq<i32>, bg: Seq<i32>, c: int)
    requires
        is_rgb(drawn),
        is_rgb(fg),
        is_rgb(bg),
        0 <= c < 3,
        fg[c] - bg[c] >= 24 || bg[c] - fg[c] >= 24,
        bg[c] <= drawn[c] <= fg[c] || fg[c] <= drawn[c] <= bg[c],
    ensures
        ({
            let px = icon_pixel(drawn, fg, bg);
            let back = composite_channel(
                pixel_channels(px)[c] as int,
                pixel_alpha(px),
                bg[c] as int,
            );
            -1 <= back - drawn[c] <= 1
        }),
{
    let a = alpha(drawn, fg, bg);
    let (d, f, b) = (drawn[c] as int, fg[c] as int, bg[c] as int);
    lemma_alpha_range(drawn[0] as int, fg[0] as int, bg[0] as int);
    lemma_alpha_range(drawn[1] as int, fg[1] as int, bg[1] as int);
    lemma_alpha_range(drawn[2] as int, fg[2] as int, bg[2] as int);
    let (diff, span) = if f > b {
        (d - b, f - b)
    } else {
        (b - d, b - f)
    };
    lemma_alpha_reaches(diff, span);
    let h = half_up((255 * diff) as nat, span as nat) as int;
    assert(channel_alpha(d, f, b) == h);
    assert(h * span <= a * span) by (nonlinear_arith)
        requires
            h <= a,
            span > 0,
    ;
    assert(a * b + a * (255 - b) == 255 * a) by (nonlinear_arith);
    assert(a * span <= a * (255 - b) || f < b) by (nonlinear_arith)
        requires
            span <= 255 - b || f < b,
            a >= 0,
    ;
    assert(a * span <= a * b || f > b) by (nonlinear_arith)
        requires
            span <= b || f > b,
            a >= 0,
    ;
    assert(a * b >= 0 && a * (255 - b) >= 0) by (nonlinear_arith)
        requires
            a >= 0,
            0 <= b <= 255,
    ;
    lemma_pixel_back(drawn, fg, bg, c);
}

/// Untouched background is transparent.
pub proof fn law_background_is_transparent(fg: Seq<i32>, bg: Seq<i32>)
    requires
        is_rgb(fg),
        is_rgb(bg),
    ensures
        icon_pixel(bg, fg, bg) == 0,
{
    assert forall|c: int| 0 <= c < 3 implies channel_alpha(
        #[trigger] bg[c] as int,
        fg[c] as int,
        bg[c] as int,
    ) == 0 by {
        if fg[c] - bg[c] >= 24 {
            let span = fg[c] - bg[c];
            assert((2 * (255 * 0) + span) / (2 * span) == 0) by (nonlinear_arith)
                requires
                    span > 0,
            ;
        } else if bg[c] - fg[c] >= 24 {
            let span = bg[c] - fg[c];
            assert((2 * (255 * 0) + span) / (2 * span) == 0) by (nonlinear_arith)
                requires
                    span > 0,
            ;
        }
    }
    assert(channel_alpha(bg[0] as int, fg[0] as int, bg[0] as int) == 0);
    assert(channel_alpha(bg[1] as int, fg[1] as int, bg[1] as int) == 0);
    assert(channel_alpha(bg[2] as int, fg[2] as int, bg[2] as int) == 0);
}

/// Full coverage is opaque, unless the text colour nearly matches the background.
pub proof fn law_full_coverage_is_opaque(fg: Seq<i32>, bg: Seq<i32>, c: int)
    requires
        is_rgb(fg),
        is_rgb(bg),
        0 <= c < 3,
        fg[c] - bg[c] >= 24 || bg[c] - fg[c] >= 24,
    ensures
        alpha(fg, fg, bg) == 255,
        pixel_alpha(icon_pixel(fg, fg, bg)) == 255,
{
    assert forall|i: int| 0 <= i < 3 implies 0 <= channel_alpha(
        #[trigger] fg[i] as int,
        fg[i] as int,
        bg[i] as int,
    ) <= 255 && (i == c ==> channel_alpha(fg[i] as int, fg[i] as int, bg[i] as int) == 255) by {
        lemma_alpha_range(fg[i] as int, fg[i] as int, bg[i] as int);
        if i == c {
            let span = if fg[c] > bg[c] {
                fg[c] - bg[c]
            } else {
                bg[c] - fg[c]
            };
            lemma_alpha_reaches(span, span);
        }
    }
    assert(0 <= channel_alpha(fg[0] as int, fg[0] as int, bg[0] as int) <= 255);
    assert(0 <= channel_alpha(fg[1] as int, fg[1] as int, bg[1] as int) <= 255);
    assert(0 <= channel_alpha(fg[2] as int, fg[2] as int, bg[2] as int) <= 255);
    let a = alpha(fg, fg, bg);
    assert(a == 255);
    lemma_straight_range(fg[0] as int, bg[0] as int, a);
    lemma_straight_range(fg[1] as int, bg[1] as int, a);
    lemma_straight_range(fg[2] as int, bg[2] as int, a);
}

proof fn lemma_straight_range(drawn: int, bg: int, a: int)
    ensures
        0 <= straight_channel(drawn, bg, a) <= 255,
{
}

// ---------------------------------------------------------------------------
// What the numbers are
/// The palette: white, red, green and gray for a dark taskbar, each with red in the
/// low byte, and their darker counterparts for a light one: near black, #C42B1C,
/// #0F7B0F and #707070. Other colours pass through.
pub proof fn law_palette(color: u32)
    ensures
        COLOR_NORMAL == 0x00FF_FFFF,
        COLOR_LOW == 0x0050_50FF,
        COLOR_CHARGING == 0x0078_DC50,
        COLOR_STALE == 0x00A0_A0A0,
        color == 0x00FF_FFFF ==> light_shade(color) == 0x001A_1A1A,
        color == 0x0050_50FF ==> light_shade(color) == 0x001C_2BC4,
        color == 0x0078_DC50 ==> light_shade(color) == 0x000F_7B0F,
        color == 0x00A0_A0A0 ==> light_shade(color) == 0x0070_7070,
        color != 0x00FF_FFFF && color != 0x0050_50FF && color != 0x0078_DC50 && color != 0x00A0_A0A0
            ==> light_shade(color) == color,
{
}

/// Red stays the strongest channel of the colour for low and green that of the
/// colour for charging, and each shade is darker in every channel than its
/// counterpart.
pub proof fn law_light_palette_keeps_the_hue(color: u32, c: int)
    requires
        color == COLOR_NORMAL || color == COLOR_LOW || color == COLOR_CHARGING || color
            == COLOR_STALE,
        0 <= c < 3,
    ensures
        colorref_channels(light_shade(color))[c] < colorref_channels(color)[c],
        color == COLOR_LOW && c != 0 ==> colorref_channels(light_shade(color))[c]
            < colorref_channels(light_shade(color))[0],
        color == COLOR_CHARGING && c != 1 ==> colorref_channels(light_shade(color))[c]
            < colorref_channels(light_shade(color))[1],
{
}

/// A pixel put together of three channels has them.
pub proof fn law_pixel_of(r: int, g: int, b: int)
    requires
        0 <= r <= 255,
        0 <= g <= 255,
        0 <= b <= 255,
    ensures
        pixel_of(r, g, b) == r * 65536 + g * 256 + b,
        pixel_channels(pixel_of(r, g, b)) == seq![r as i32, g as i32, b as i32],
        pixel_of(r, g, b) < 0x100_0000,
{
    lemma_unpack(pixel_of(r, g, b), 0, r, g, b);
}

/// The channels of a number are its three low bytes: red first in a COLORREF's low
/// byte, blue in a bitmap pixel's. Turning a COLORREF into a pixel keeps them.
pub proof fn law_channels(c: u32)
    ensures
        is_rgb(colorref_channels(c)),
        is_rgb(pixel_channels(c)),
        colorref_channels(c)[0] + 256 * colorref_channels(c)[1] + 65536 * colorref_channels(c)[2]
            == c as int % 0x100_0000,
        pixel_channels(c)[2] + 256 * pixel_channels(c)[1] + 65536 * pixel_channels(c)[0] == c as int
            % 0x100_0000,
        pixel_channels(pixel_of_colorref(c)) == colorref_channels(c),
        pixel_of_colorref(c) < 0x100_0000,
{
    lemma_low_bytes(c);
    law_pixel_of(byte0(c), byte1(c), byte2(c));
}

proof fn lemma_low_bytes(c: u32)
    ensures
        byte0(c) + 256 * byte1(c) + 65536 * byte2(c) == c as int % 0x100_0000,
{
    let q1 = c as int / 256;
    let q2 = c as int / 65536;
    let q3 = q2 / 256;
    assert(q2 == q1 / 256);
    assert(c == 256 * q1 + byte0(c));
    assert(q1 == 256 * q2 + byte1(c));
    assert(q2 == 256 * q3 + byte2(c));
    assert(c == 0x100_0000 * q3 + (byte0(c) + 256 * byte1(c) + 65536 * byte2(c)));
    vstd::arithmetic::div_mod::lemma_fundamental_div_mod_converse(
        c as int,
        0x100_0000,
        q3,
        byte0(c) + 256 * byte1(c) + 65536 * byte2(c),
    );
}

/// The coverage of a channel: none where the colours are less than 24 apart or the
/// channel is on the far side of the background, 255 where it is at the text's
/// colour or past it, else its share of the way, to the nearest 255th.
pub proof fn law_channel_coverage(drawn: int, fg: int, bg: int)
    requires
        0 <= drawn <= 255,
        0 <= fg <= 255,
        0 <= bg <= 255,
    ensures
        ({
            let a = channel_alpha(drawn, fg, bg);
            let (way, span) = if fg > bg {
                (drawn - bg, fg - bg)
            } else {
                (bg - drawn, bg - fg)
            };
            &&& span < 24 ==> a == 0
            &&& span >= 24 && way <= 0 ==> a == 0
            &&& span >= 24 && way >= span ==> a == 255
            &&& span >= 24 && 0 < way < span ==> -span < 2 * (a * span - 255 * way) <= span
        }),
{
    let (way, span) = if fg > bg {
        (drawn - bg, fg - bg)
    } else {
        (bg - drawn, bg - fg)
    };
    if span >= 24 {
        let n = 255 * clamp(way, 0, span);
        crate::single::law_nearest_integer(n as nat, span as nat);
        let h = half_up(n as nat, span as nat) as int;
        if way <= 0 {
            assert(h == 0) by (nonlinear_arith)
                requires
                    -span < 2 * (h * span - 0) <= span,
                    span > 0,
            ;
        }
        if way >= span {
            assert(h == 255) by (nonlinear_arith)
                requires
                    -span < 2 * (h * span - 255 * span) <= span,
                    span > 0,
            ;
        }
    }
}

/// An icon pixel's alpha is the strongest coverage of its three channels, and a
/// pixel without any is wholly empty.
#[verifier::spinoff_prover]
#[verifier::rlimit(40)]
pub proof fn law_alpha_is_the_strongest(drawn: Seq<i32>, fg: Seq<i32>, bg: Seq<i32>)
    requires
        is_rgb(drawn),
        is_rgb(fg),
        is_rgb(bg),
    ensures
        forall|c: int|
            0 <= c < 3 ==> channel_alpha(#[trigger] drawn[c] as int, fg[c] as int, bg[c] as int)
                <= pixel_alpha(icon_pixel(drawn, fg, bg)),
        exists|c: int|
            0 <= c < 3 && channel_alpha(#[trigger] drawn[c] as int, fg[c] as int, bg[c] as int)
                == pixel_alpha(icon_pixel(drawn, fg, bg)),
        pixel_alpha(icon_pixel(drawn, fg, bg)) == 0 ==> icon_pixel(drawn, fg, bg) == 0,
{
    let a = alpha(drawn, fg, bg);
    lemma_alpha_range(drawn[0] as int, fg[0] as int, bg[0] as int);
    lemma_alpha_range(drawn[1] as int, fg[1] as int, bg[1] as int);
    lemma_alpha_range(drawn[2] as int, fg[2] as int, bg[2] as int);
    if a > 0 {
        let r = straight_channel(drawn[0] as int, bg[0] as int, a);
        let g = straight_channel(drawn[1] as int, bg[1] as int, a);
        let b = straight_channel(drawn[2] as int, bg[2] as int, a);
        lemma_straight_range(drawn[0] as int, bg[0] as int, a);
        lemma_straight_range(drawn[1] as int, bg[1] as int, a);
        lemma_straight_range(drawn[2] as int, bg[2] as int, a);
        lemma_unpack(icon_pixel(drawn, fg, bg), a, r, g, b);
    }
    assert(pixel_alpha(icon_pixel(drawn, fg, bg)) == a);
    let witness = if channel_alpha(drawn[0] as int, fg[0] as int, bg[0] as int) == a {
        0int
    } else if channel_alpha(drawn[1] as int, fg[1] as int, bg[1] as int) == a {
        1int
    } else {
        2int
    };
    assert(channel_alpha(drawn[witness] as int, fg[witness] as int, bg[witness] as int) == a);
}

} // verus!
