//! What the tray shows for a reading.
use vstd::prelude::*;

use crate::color::{COLOR_CHARGING, COLOR_LOW, COLOR_NORMAL, COLOR_STALE};
use crate::protocol::{
    status_option, BatteryStatus, PollingView, ReadResult, ReadView, StatusView,
};
use crate::single::{divide_half_even, half_even, nearest, single};
use crate::text::{decimal, digit_char, push_decimal, utf16, wide};

verus! {

/// At this charge and below, the number is shown in the colour for low.
pub const LOW_PERCENT: u8 = 20;

/// Units of the tooltip's buffer, its null included.
pub const TIP_LEN: usize = 128;

/// What the tray shows: the icon's text and colour, and the tooltip.
#[derive(Clone)]
pub struct TrayView {
    pub text: String,
    pub color: u32,
    pub tip: String,
}

/// The meaning of a `TrayView`.
#[verifier::ext_equal]
pub struct TrayModel {
    pub text: Seq<char>,
    pub color: u32,
    pub tip: Seq<char>,
}

impl View for TrayView {
    type V = TrayModel;

    open spec fn view(&self) -> TrayModel {
        TrayModel { text: self.text@, color: self.color, tip: self.tip@ }
    }
}

/// A voltage in hundredths of a volt, from millivolts: the single-precision value
/// of `mv / 1000`, rounded to two decimals, a half going to the even one.
pub open spec fn centivolts(mv: u16) -> nat {
    let (m, p) = single(mv as nat, 1000);
    half_even(m * 100, p)
}

/// A voltage with two decimals.
pub open spec fn volts(mv: u16) -> Seq<char> {
    let c = centivolts(mv);
    decimal(c / 100) + seq!['.', digit_char(c / 10 % 10), digit_char(c % 10)]
}

/// Append a voltage with two decimals.
pub fn push_volts(s: &mut String, mv: u16)
    ensures
        final(s)@ == old(s)@ + volts(mv),
{
    let (m, p) = nearest(mv as u128, 1000);
    proof {
        if mv > 0 {
            crate::single::lemma_single_bounds(mv as nat, 1000);
        }
        assert(m * 100 / p as int <= m * 100) by (nonlinear_arith)
            requires
                p >= 1,
                m >= 0,
        ;
    }
    let c: u128 = divide_half_even(m * 100, p);
    let c: u32 = c as u32;
    push_decimal(s, c / 100);
    s.push('.');
    s.push((48 + (c / 10 % 10) as u8) as char);
    s.push((48 + (c % 10) as u8) as char);
    assert(s@ == old(s)@ + volts(mv));
}

/// The colour for a charge: green while charging, else red when low, else white.
pub open spec fn charge_color(percent: u8, charging: bool) -> u32 {
    if charging {
        COLOR_CHARGING
    } else if percent <= LOW_PERCENT {
        COLOR_LOW
    } else {
        COLOR_NORMAL
    }
}

/// The tooltip for a reading: model, percentage, charging state, and the voltage
/// and polling rate where the mouse told them.
pub open spec fn status_tip(s: StatusView) -> Seq<char> {
    s.product + " — "@ + decimal(s.percent as nat) + "%"@ + (if s.charging {
        " (charging)"@
    } else {
        Seq::empty()
    }) + (match s.voltage_mv {
        Some(mv) => " · "@ + volts(mv) + " V"@,
        None => Seq::empty(),
    }) + (match s.polling {
        Some(p) => " · "@ + decimal(p.hz as nat) + " Hz"@,
        None => Seq::empty(),
    })
}

/// What the tray shows for a result, with the percentage last read if any.
pub open spec fn shown(result: ReadView, last_pct: Option<u8>) -> TrayModel {
    match result {
        ReadView::Status(s) => TrayModel {
            text: decimal(s.percent as nat),
            color: charge_color(s.percent, s.charging),
            tip: status_tip(s),
        },
        ReadView::NoResponse(product) => match last_pct {
            Some(pct) => TrayModel {
                text: decimal(pct as nat),
                color: COLOR_STALE,
                tip: product + " — "@ + decimal(pct as nat) + "% (stale, mouse not responding)"@,
            },
            None => TrayModel {
                text: "?"@,
                color: COLOR_STALE,
                tip: product + " — not responding (asleep?)"@,
            },
        },
        ReadView::NoDevice => TrayModel {
            text: "?"@,
            color: COLOR_STALE,
            tip: "No supported mouse found"@,
        },
    }
}

fn number(n: u32) -> (r: String)
    ensures
        r@ == decimal(n as nat),
{
    let mut s = String::new();
    push_decimal(&mut s, n);
    assert(s@ == decimal(n as nat));
    s
}

fn tip_of(s: &BatteryStatus) -> (tip: String)
    ensures
        tip@ == status_tip(s@),
{
    let mut tip = s.product.clone();
    tip.append(" — ");
    push_decimal(&mut tip, s.percent as u32);
    tip.append("%");
    if s.charging {
        tip.append(" (charging)");
    }
    let ghost charge = tip@;
    match s.voltage_mv {
        Some(mv) => {
            tip.append(" · ");
            push_volts(&mut tip, mv);
            tip.append(" V");
            assert(tip@ == charge + (" · "@ + volts(mv) + " V"@));
        },
        None => {},
    }
    let ghost volt = tip@;
    match s.polling {
        Some(p) => {
            tip.append(" · ");
            push_decimal(&mut tip, p.hz as u32);
            tip.append(" Hz");
            assert(tip@ == volt + (" · "@ + decimal(p.hz as nat) + " Hz"@));
        },
        None => {},
    }
    assert(tip@ == status_tip(s@));
    tip
}

/// What the tray should show for a poll result.
pub fn tray_view(result: &ReadResult, last_pct: Option<u8>) -> (r: TrayView)
    ensures
        r@ == shown(result@, last_pct),
{
    match result {
        ReadResult::Status(s) => {
            let color = if s.charging {
                COLOR_CHARGING
            } else if s.percent <= LOW_PERCENT {
                COLOR_LOW
            } else {
                COLOR_NORMAL
            };
            TrayView { text: number(s.percent as u32), color, tip: tip_of(s) }
        },
        ReadResult::NoResponse(product) => match last_pct {
            Some(pct) => {
                let mut tip = product.clone();
                tip.append(" — ");
                push_decimal(&mut tip, pct as u32);
                tip.append("% (stale, mouse not responding)");
                TrayView { text: number(pct as u32), color: COLOR_STALE, tip }
            },
            None => {
                let mut tip = product.clone();
                tip.append(" — not responding (asleep?)");
                TrayView { text: "?".to_owned(), color: COLOR_STALE, tip }
            },
        },
        ReadResult::NoDevice => TrayView {
            text: "?".to_owned(),
            color: COLOR_STALE,
            tip: "No supported mouse found".to_owned(),
        },
    }
}

/// What is shown until the first reading.
pub open spec fn reading_model() -> TrayModel {
    TrayModel { text: "…"@, color: COLOR_STALE, tip: "mousebatt — reading…"@ }
}

/// What the tray shows until the first reading.
pub fn reading_view() -> (r: TrayView)
    ensures
        r@ == reading_model(),
{
    TrayView {
        text: "…".to_owned(),
        color: COLOR_STALE,
        tip: "mousebatt — reading…".to_owned(),
    }
}

/// The reading to remember after a result: the newest one, kept while the mouse
/// doesn't answer and forgotten when it is gone, so that a different mouse plugged
/// in later can't be shown with this one's percentage.
pub open spec fn remembered(last: Option<StatusView>, result: ReadView) -> Option<StatusView> {
    match result {
        ReadView::Status(s) => Some(s),
        ReadView::NoDevice => None,
        ReadView::NoResponse(_) => last,
    }
}

/// The percentage of a remembered reading.
pub open spec fn percent_of(last: Option<StatusView>) -> Option<u8> {
    match last {
        Some(s) => Some(s.percent),
        None => None,
    }
}

/// Take a poll result: what to show, and the reading to remember from now on.
pub fn on_poll_done(result: ReadResult, last: Option<BatteryStatus>) -> (r: (
    TrayView,
    Option<BatteryStatus>,
))
    ensures
        r.0@ == shown(result@, percent_of(status_option(last))),
        status_option(r.1) == remembered(status_option(last), result@),
{
    let last_pct = match &last {
        Some(s) => Some(s.percent),
        None => None,
    };
    let view = tray_view(&result, last_pct);
    let last = match result {
        ReadResult::Status(s) => Some(s),
        ReadResult::NoDevice => None,
        ReadResult::NoResponse(_) => last,
    };
    (view, last)
}

// ---------------------------------------------------------------------------
// Laws
/// A mouse that falls asleep is shown with its last percentage, in gray.
pub proof fn law_asleep_shows_the_last_value(
    last: Option<StatusView>,
    reading: StatusView,
    product: Seq<char>,
)
    ensures
        ({
            let before = remembered(last, ReadView::Status(reading));
            let view = shown(ReadView::NoResponse(product), percent_of(before));
            &&& view.text == decimal(reading.percent as nat)
            &&& view.color == COLOR_STALE
            &&& remembered(before, ReadView::NoResponse(product)) == before
        }),
{
}

/// After a mouse was gone, nothing of its reading is shown any more.
pub proof fn law_gone_mouse_is_forgotten(last: Option<StatusView>, product: Seq<char>)
    ensures
        ({
            let after = remembered(last, ReadView::NoDevice);
            shown(ReadView::NoResponse(product), percent_of(after)) == shown(
                ReadView::NoResponse(product),
                None,
            )
        }),
{
}

/// The colour tells the state apart: white a normal charge, green charging, red
/// 20% or less, gray no fresh reading.
pub proof fn law_color_tells_the_state(result: ReadView, last_pct: Option<u8>)
    ensures
        ({
            let color = shown(result, last_pct).color;
            &&& color == COLOR_STALE <==> !(result is Status)
            &&& color == COLOR_CHARGING <==> (result matches ReadView::Status(s) && s.charging)
            &&& color == COLOR_LOW <==> (result matches ReadView::Status(s) && !s.charging
                && s.percent <= 20)
            &&& color == COLOR_NORMAL <==> (result matches ReadView::Status(s) && !s.charging
                && s.percent > 20)
        }),
{
}

// ---------------------------------------------------------------------------
// The tooltip's buffer
/// A text in a tooltip's buffer: cut, if need be, to keep a null at the end.
pub open spec fn tip_units(tip: Seq<char>) -> Seq<u16> {
    let w = utf16(tip);
    Seq::new(
        TIP_LEN as nat,
        |i: int|
            if i < w.len() && i < TIP_LEN - 1 {
                w[i]
            } else {
                0u16
            },
    )
}

/// A tooltip in a buffer as the shell takes it.
pub fn tip_buffer(tip: &str) -> (r: [u16; 128])
    ensures
        r@ == tip_units(tip@),
{
    let w = wide(tip);
    let n: usize = if w.len() < TIP_LEN - 1 {
        w.len()
    } else {
        TIP_LEN - 1
    };
    let mut r = [0u16; 128];
    let mut i: usize = 0;
    while i < n
        invariant
            w@ == utf16(tip@).push(0),
            n <= w.len(),
            n <= 127,
            n == w.len() || n == 127,
            i <= n,
            r@.len() == 128,
            forall|k: int|
                0 <= k < 128 ==> #[trigger] r@[k] == (if k < i {
                    w@[k]
                } else {
                    0
                }),
        decreases n - i,
    {
        r[i] = w[i];
        i += 1;
    }
    assert(r@ == tip_units(tip@));
    r
}

/// A tooltip always ends with a null, and one that fits is kept whole.
pub proof fn law_tip_is_terminated(tip: Seq<char>)
    ensures
        tip_units(tip).len() == TIP_LEN,
        tip_units(tip)[TIP_LEN - 1] == 0,
        utf16(tip).len() < TIP_LEN ==> {
            &&& tip_units(tip).take(utf16(tip).len() as int) == utf16(tip)
            &&& tip_units(tip)[utf16(tip).len() as int] == 0
        },
{
}

/// Whether the icon has to be added: when asked to, or when changing it failed
/// because it never was, e.g. while the shell was busy at logon.
pub fn must_add(add: bool, modified: i32) -> (r: bool)
    ensures
        r <==> add || modified == 0,
{
    add || modified == 0
}

// ---------------------------------------------------------------------------
// What a reading shows
/// A fresh reading, charging or not and whatever was read before, is shown as its
/// percentage in decimal, from which the percentage reads back.
pub proof fn law_reading_shows_its_percentage(s: StatusView, last_pct: Option<u8>)
    ensures
        shown(ReadView::Status(s), last_pct).text == decimal(s.percent as nat),
        crate::text::byte_value(shown(ReadView::Status(s), last_pct).text) == Some(s.percent),
        shown(ReadView::Status(s), last_pct) == shown(ReadView::Status(s), None),
{
    crate::text::law_decimal_reads_back(s.percent);
}

/// The tooltip of a fresh reading starts with product, dash and percentage. Being
/// charged, a voltage and a polling rate each add their part at the end of what is
/// there without it, in this order.
pub proof fn law_tooltip_parts(s: StatusView, mv: u16, p: PollingView, last_pct: Option<u8>)
    ensures
        ({
            let tip = |s: StatusView| shown(ReadView::Status(s), last_pct).tip;
            let silent = StatusView { polling: None, ..s };
            let bare = StatusView { voltage_mv: None, ..silent };
            &&& tip(StatusView { charging: false, ..bare }) == s.product + " — "@ + decimal(
                s.percent as nat,
            ) + "%"@
            &&& tip(StatusView { charging: true, ..bare }) == tip(
                StatusView { charging: false, ..bare },
            ) + " (charging)"@
            &&& tip(StatusView { voltage_mv: Some(mv), ..silent }) == tip(bare) + " · "@ + volts(mv)
                + " V"@
            &&& tip(StatusView { polling: Some(p), ..s }) == tip(silent) + " · "@ + decimal(
                p.hz as nat,
            ) + " Hz"@
        }),
{
    let tip = |s: StatusView| shown(ReadView::Status(s), last_pct).tip;
    let silent = StatusView { polling: None, ..s };
    let bare = StatusView { voltage_mv: None, ..silent };
    let head = s.product + " — "@ + decimal(s.percent as nat) + "%"@;
    assert(tip(StatusView { charging: false, ..bare }) == head);
    assert(tip(StatusView { charging: true, ..bare }) == head + " (charging)"@);
    assert(tip(StatusView { voltage_mv: Some(mv), ..silent }) == tip(bare) + " · "@ + volts(mv)
        + " V"@);
    assert(tip(StatusView { polling: Some(p), ..s }) == tip(silent) + " · "@ + decimal(p.hz as nat)
        + " Hz"@);
}

/// A mouse that does not answer is shown in gray: with the last percentage, if any,
/// as its text and marked stale in the tooltip, else with a question mark. Without
/// a mouse the question mark stands whatever was read before.
pub proof fn law_no_reading_is_told(product: Seq<char>, pct: u8, last_pct: Option<u8>)
    ensures
        ({
            let asleep = shown(ReadView::NoResponse(product), Some(pct));
            &&& asleep.text == decimal(pct as nat)
            &&& asleep.color == COLOR_STALE
            &&& asleep.tip == product + " — "@ + decimal(pct as nat)
                + "% (stale, mouse not responding)"@
        }),
        ({
            let unknown = shown(ReadView::NoResponse(product), None);
            &&& unknown.text == seq!['?']
            &&& unknown.color == COLOR_STALE
            &&& unknown.tip == product + " — not responding (asleep?)"@
        }),
        ({
            let gone = shown(ReadView::NoDevice, last_pct);
            &&& gone.text == seq!['?']
            &&& gone.color == COLOR_STALE
            &&& gone.tip == "No supported mouse found"@
        }),
{
    reveal_strlit("?");
    assert("?"@ == seq!['?']);
}

/// The reading to remember is the newest one while there is a mouse, and none once
/// there is not.
pub proof fn law_newest_reading_is_remembered(
    last: Option<StatusView>,
    s: StatusView,
    product: Seq<char>,
)
    ensures
        remembered(last, ReadView::Status(s)) == Some(s),
        remembered(last, ReadView::NoResponse(product)) == last,
        remembered(last, ReadView::NoDevice) is None,
        percent_of(Some(s)) == Some(s.percent),
        percent_of(None) is None,
{
}

/// A voltage is shown in volts with two decimals, the nearest to the millivolts.
pub proof fn law_volts(mv: u16)
    ensures
        -5 <= 10 * centivolts(mv) - mv <= 5,
        volts(mv) == decimal(centivolts(mv) / 100) + seq![
            '.',
            (48 + centivolts(mv) / 10 % 10) as char,
            (48 + centivolts(mv) % 10) as char,
        ],
{
    if mv > 0 {
        let (m, p) = single(mv as nat, 1000);
        let c = centivolts(mv) as int;
        crate::single::lemma_single_bounds(mv as nat, 1000);
        crate::single::lemma_single_error(mv as nat, 1000);
        let e: int = m * 1000 - mv * p;
        // `c` is within half a unit of 100 m / p.
        crate::single::law_nearest_integer(m * 100, p);
        assert(-(p as int) <= 2 * (c * p - m * 100) <= p);
        // 10 c p - mv p = 10 (c p - 100 m) + e, and 2 e is 1000 at most, far below p.
        assert(p >= 0x8000) by (nonlinear_arith)
            requires
                1000 * 0x80_0000 <= mv * p || p == 1,
                mv < 65536,
                p >= 2,
        ;
        let x: int = 10 * c - mv;
        assert(x * p == 10 * (c * p - m * 100) + e) by (nonlinear_arith)
            requires
                x == 10 * c - mv,
                e == m * 1000 - mv * p,
        ;
        assert(x <= 5) by (nonlinear_arith)
            requires
                2 * (x * p) <= 10 * p + 1000,
                p >= 0x8000,
        ;
        assert(x >= -5) by (nonlinear_arith)
            requires
                2 * (x * p) >= -(10 * p + 1000),
                p >= 0x8000,
        ;
    } else {
        assert(centivolts(0) == 0) by {
            assert(single(0, 1000) == (0nat, 1nat));
        }
    }
}

/// A tooltip's buffer holds the first 127 units of the text, or all where there are
/// fewer, and nulls behind them.
pub proof fn law_tip_units(tip: Seq<char>, i: int)
    requires
        0 <= i < 128,
    ensures
        tip_units(tip).len() == 128,
        i < 127 && i < utf16(tip).len() ==> tip_units(tip)[i] == utf16(tip)[i],
        i == 127 || i >= utf16(tip).len() ==> tip_units(tip)[i] == 0,
{
}

/// Until the first reading the icon shows an ellipsis in gray, which fills no
/// battery.
pub proof fn law_reading_view()
    ensures
        reading_model().text == seq!['…'],
        reading_model().color == 0x00A0_A0A0,
        reading_model().tip == "mousebatt — reading…"@,
        crate::text::byte_value(reading_model().text) is None,
{
    reveal_strlit("…");
    assert("…"@ == seq!['…']);
    crate::text::law_byte_digits(Seq::empty(), '…');
}

} // verus!
