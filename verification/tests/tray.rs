use mousebatt::color::{COLOR_CHARGING, COLOR_LOW, COLOR_NORMAL, COLOR_STALE};
use mousebatt::layout::BatteryGlyph;
use mousebatt::protocol::{BatteryStatus, PollingInfo, ReadResult, PULSAR_RATES};
use mousebatt::settings::{glyph_from_setting, glyph_setting};
use mousebatt::tray::tray_view;

fn status(percent: u8, charging: bool, mv: Option<u16>) -> ReadResult {
    ReadResult::Status(BatteryStatus {
        percent,
        charging,
        voltage_mv: mv,
        product: "X3".into(),
        polling: None,
    })
}

#[test]
fn ok_tip_includes_polling_rate() {
    let mut r = status(85, false, Some(3912));
    if let ReadResult::Status(s) = &mut r {
        s.polling = Some(PollingInfo {
            hz: 4000,
            max_hz: 8000,
            rates: &PULSAR_RATES,
        });
    }
    assert_eq!(tray_view(&r, None).tip, "X3 — 85% · 3.91 V · 4000 Hz");
}

#[test]
fn ok_normal_with_voltage() {
    let v = tray_view(&status(85, false, Some(3912)), None);
    assert_eq!(v.text, "85");
    assert_eq!(v.color, COLOR_NORMAL);
    assert_eq!(v.tip, "X3 — 85% · 3.91 V");
}

#[test]
fn ok_low_threshold_is_inclusive() {
    assert_eq!(
        tray_view(&status(20, false, None), None).color,
        COLOR_LOW
    );
    assert_eq!(
        tray_view(&status(21, false, None), None).color,
        COLOR_NORMAL
    );
}

#[test]
fn ok_charging_overrides_low() {
    let v = tray_view(&status(5, true, None), None);
    assert_eq!(v.color, COLOR_CHARGING);
    assert_eq!(v.tip, "X3 — 5% (charging)");
}

#[test]
fn no_response_shows_stale_last_value() {
    let v = tray_view(&ReadResult::NoResponse("X3".into()), Some(60));
    assert_eq!(v.text, "60");
    assert_eq!(v.color, COLOR_STALE);
    assert_eq!(v.tip, "X3 — 60% (stale, mouse not responding)");
}

#[test]
fn no_response_without_history() {
    let v = tray_view(&ReadResult::NoResponse("X3".into()), None);
    assert_eq!(v.text, "?");
    assert_eq!(v.tip, "X3 — not responding (asleep?)");
}

#[test]
fn glyph_setting_round_trips_and_ignores_unknown_values() {
    for g in BatteryGlyph::ALL {
        assert_eq!(glyph_from_setting(glyph_setting(g)), Some(g));
    }
    let stored: Vec<u32> = BatteryGlyph::ALL.into_iter().map(glyph_setting).collect();
    assert_eq!(stored, [0, 1, 2], "stored values must stay stable");
    assert_eq!(glyph_from_setting(3), None);
}

#[test]
fn no_device() {
    let v = tray_view(&ReadResult::NoDevice, Some(60));
    assert_eq!(v.text, "?");
    assert_eq!(v.color, COLOR_STALE);
    assert_eq!(v.tip, "No supported mouse found");
}
