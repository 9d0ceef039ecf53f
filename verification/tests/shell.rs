use mousebatt::color::{COLOR_NORMAL, COLOR_STALE};
use mousebatt::layout::BatteryGlyph;
use mousebatt::menu::{menu_command, show_menu, MenuCommand, MenuEntry, MenuItem};
use mousebatt::protocol::{BatteryStatus, PollingInfo, ReadResult, PULSAR_RATES, VAXEE_RATES};
use mousebatt::settings::{autostart_value, glyph_label, glyph_setting, load_glyph};
use mousebatt::tray::{must_add, on_poll_done, reading_view, tip_buffer, tray_view};
use mousebatt::window::{wndproc, Polls, WindowAction};

fn reading(percent: u8, mv: Option<u16>) -> ReadResult {
    ReadResult::Status(BatteryStatus {
        percent,
        charging: false,
        voltage_mv: mv,
        product: "X3".to_string(),
        polling: None,
    })
}

#[test]
fn every_voltage_is_formatted_like_the_float() {
    for mv in 0..=u16::MAX {
        let tip = tray_view(&reading(50, Some(mv)), None).tip;
        assert_eq!(tip, format!("X3 — 50% · {:.2} V", mv as f32 / 1000.0));
    }
}

#[test]
fn every_percentage_is_shown() {
    for percent in 0..=255u8 {
        let view = tray_view(&reading(percent, None), Some(3));
        assert_eq!(view.text, percent.to_string());
        assert_eq!(view.tip, format!("X3 — {percent}%"));
    }
}

#[test]
fn asleep_mouse_shows_its_last_value_and_a_gone_one_is_forgotten() {
    let (view, last) = on_poll_done(reading(60, None), None);
    assert_eq!((view.text.as_str(), view.color), ("60", COLOR_NORMAL));
    let (view, last) = on_poll_done(ReadResult::NoResponse("X3".to_string()), last);
    assert_eq!((view.text.as_str(), view.color), ("60", COLOR_STALE));
    assert_eq!(last.as_ref().map(|s| s.percent), Some(60));
    let (view, last) = on_poll_done(ReadResult::NoDevice, last);
    assert_eq!(view.tip, "No supported mouse found");
    assert!(last.is_none());
    let (view, last) = on_poll_done(ReadResult::NoResponse("Y".to_string()), last);
    assert_eq!((view.text.as_str(), view.tip.as_str()), ("?", "Y — not responding (asleep?)"));
    assert!(last.is_none());
    // It recovers on the next poll.
    let (view, _) = on_poll_done(reading(61, None), last);
    assert_eq!((view.text.as_str(), view.color), ("61", COLOR_NORMAL));
}

#[test]
fn view_before_the_first_reading() {
    let view = reading_view();
    assert_eq!(view.text, "…");
    assert_eq!(view.color, COLOR_STALE);
    assert_eq!(view.tip, "mousebatt — reading…");
}

#[test]
fn tips_are_cut_to_keep_their_null() {
    let tip = tip_buffer("X3 — 5%");
    let expected: Vec<u16> = "X3 — 5%".encode_utf16().collect();
    assert_eq!(tip[..expected.len()], expected[..]);
    assert!(tip[expected.len()..].iter().all(|&u| u == 0));
    for n in [126, 127, 128, 300] {
        let tip = tip_buffer(&"a".repeat(n));
        assert_eq!(tip.iter().filter(|&&u| u == 97).count(), n.min(127));
        assert_eq!(tip[127], 0);
    }
    assert_eq!(tip_buffer(""), [0; 128]);
    assert!(must_add(true, 1) && must_add(false, 0) && !must_add(false, 1));
}

fn polling(hz: u16, max_hz: u16, rates: &'static [u16]) -> Option<PollingInfo> {
    Some(PollingInfo { hz, max_hz, rates })
}

fn flat(item: &MenuItem) -> (String, usize, bool) {
    (item.label.clone(), item.id, item.checked)
}

/// The menu as lines: (submenu, label, id, checked).
fn lines(menu: &[MenuEntry]) -> Vec<(String, String, usize, bool)> {
    let mut out = Vec::new();
    for entry in menu {
        match entry {
            MenuEntry::Item(item) => {
                let (label, id, checked) = flat(item);
                out.push((String::new(), label, id, checked));
            }
            MenuEntry::Submenu { label, items } => {
                for item in items {
                    let (name, id, checked) = flat(item);
                    out.push((label.clone(), name, id, checked));
                }
            }
            MenuEntry::Separator => out.push((String::new(), "-".to_string(), 0, false)),
        }
    }
    out
}

#[test]
fn menu_lists_what_the_link_supports() {
    let menu = show_menu(polling(1000, 2000, &VAXEE_RATES), BatteryGlyph::Above, true);
    let line = |sub: &str, label: &str, id: usize, checked: bool| {
        (sub.to_string(), label.to_string(), id, checked)
    };
    assert_eq!(
        lines(&menu),
        [
            line("", "Refresh now", 1, false),
            line("Polling rate", "500 Hz", 100, false),
            line("Polling rate", "1000 Hz", 101, true),
            line("Polling rate", "2000 Hz", 102, false),
            line("Battery icon", "Hidden", 200, false),
            line("Battery icon", "Above the number", 201, true),
            line("Battery icon", "Below the number", 202, false),
            line("", "Start with Windows", 2, true),
            line("", "-", 0, false),
            line("", "Exit", 3, false),
        ]
    );
}

#[test]
fn menu_without_a_reported_rate_has_no_rates() {
    let menu = show_menu(None, BatteryGlyph::Hidden, false);
    assert_eq!(menu.len(), 5);
    assert!(lines(&menu).iter().all(|l| l.0 != "Polling rate"));
    let menu = show_menu(polling(125, 8000, &PULSAR_RATES), BatteryGlyph::Hidden, false);
    assert_eq!(lines(&menu).iter().filter(|l| l.0 == "Polling rate").count(), 7);
    // A list stops at the first rate above the ceiling.
    let menu = show_menu(polling(1, 100, &[50, 200, 60]), BatteryGlyph::Hidden, false);
    assert_eq!(lines(&menu).iter().filter(|l| l.0 == "Polling rate").count(), 1);
}

#[test]
fn picks_do_what_their_items_say() {
    let p = polling(1000, 2000, &VAXEE_RATES);
    assert_eq!(menu_command(1, p, false), MenuCommand::Refresh);
    assert_eq!(menu_command(2, p, false), MenuCommand::SetAutostart(true));
    assert_eq!(menu_command(2, p, true), MenuCommand::SetAutostart(false));
    assert_eq!(menu_command(3, p, false), MenuCommand::Exit);
    for (i, hz) in VAXEE_RATES.into_iter().enumerate() {
        assert_eq!(menu_command(100 + i, p, false), MenuCommand::SetRate(hz));
    }
    for (i, g) in BatteryGlyph::ALL.into_iter().enumerate() {
        assert_eq!(menu_command(200 + i, p, false), MenuCommand::ShowGlyph(g));
    }
    for id in [0, 4, 99, 105, 199, 203, usize::MAX] {
        assert_eq!(menu_command(id, p, false), MenuCommand::Nothing, "{id}");
    }
    assert_eq!(menu_command(100, None, false), MenuCommand::Nothing);
}

#[test]
fn saved_glyph_is_loaded_again() {
    for g in BatteryGlyph::ALL {
        assert_eq!(load_glyph(0, glyph_setting(g)), g);
    }
    assert_eq!(load_glyph(0, 3), BatteryGlyph::Hidden);
    assert_eq!(load_glyph(2, 1), BatteryGlyph::Hidden);
    assert_eq!(glyph_label(BatteryGlyph::Below), "Below the number");
}

#[test]
fn autostart_value_is_the_quoted_path() {
    let expected: Vec<u16> = "\"C:\\Program Files\\mousebatt.exe\"\0".encode_utf16().collect();
    assert_eq!(autostart_value("C:\\Program Files\\mousebatt.exe"), expected);
}

#[test]
fn window_starts_and_polls_every_four_minutes() {
    assert_eq!(
        wndproc(0x0001, 0, 0, None, 0),
        [
            WindowAction::ShowReading,
            WindowAction::SetTimer { id: 1, ms: 4 * 60 * 1000 },
            WindowAction::StartPoll
        ]
    );
    assert_eq!(wndproc(0x0113, 1, 0, None, 0), [WindowAction::StartPoll]);
    assert_eq!(wndproc(0x0113, 9, 0, None, 0), []);
}

#[test]
fn replug_and_resume_are_debounced() {
    let debounce = |ms: u32| [WindowAction::SetTimer { id: 2, ms }];
    assert_eq!(wndproc(0x0219, 7, 0, None, 0), debounce(2500));
    assert_eq!(wndproc(0x0219, 8, 0, None, 0), []);
    assert_eq!(wndproc(0x0218, 0x12, 0, None, 0), debounce(5000));
    assert_eq!(wndproc(0x0218, 4, 0, None, 0), []);
    assert_eq!(
        wndproc(0x0113, 2, 0, None, 0),
        [WindowAction::KillTimer { id: 2 }, WindowAction::StartPoll]
    );
}

#[test]
fn theme_switch_redraws_without_polling() {
    let name: Vec<u16> = "ImmersiveColorSet\0".encode_utf16().collect();
    let timer = [WindowAction::SetTimer { id: 3, ms: 300 }];
    assert_eq!(wndproc(0x001A, 0, 1, Some(&name), 0), timer);
    let longer: Vec<u16> = "ImmersiveColorSet\0x".encode_utf16().collect();
    assert_eq!(wndproc(0x001A, 0, 1, Some(&longer), 0), timer);
    for other in ["ImmersiveColorSets\0", "ImmersiveColorSet", "Environment\0", ""] {
        let units: Vec<u16> = other.encode_utf16().collect();
        assert_eq!(wndproc(0x001A, 0, 1, Some(&units), 0), []);
    }
    assert_eq!(wndproc(0x001A, 0, 0, None, 0), []);
    assert_eq!(
        wndproc(0x0113, 3, 0, None, 0),
        [WindowAction::KillTimer { id: 3 }, WindowAction::RedrawWorker]
    );
    assert_eq!(wndproc(0x02E0, 0, 0, None, 0), [WindowAction::RedrawWorker]);
    assert_eq!(wndproc(0x8003, 0, 0, None, 0), [WindowAction::Redraw]);
}

#[test]
fn clicks_results_and_other_messages() {
    assert_eq!(wndproc(0x8001, 0, 0x0202, None, 0), [WindowAction::StartPoll]);
    assert_eq!(wndproc(0x8001, 0, 0x7_0205, None, 0), [WindowAction::ShowMenu]);
    assert_eq!(wndproc(0x8001, 0, -0x1_0000 + 0x0205, None, 0), [WindowAction::ShowMenu]);
    assert_eq!(wndproc(0x8001, 0, 0x0200, None, 0), []);
    assert_eq!(wndproc(0x8002, 0, 5, None, 0), [WindowAction::FinishPoll]);
    assert_eq!(wndproc(0x0002, 0, 0, None, 0), [WindowAction::RemoveTray, WindowAction::Quit]);
    assert_eq!(
        wndproc(0xC123, 0, 0, None, 0xC123),
        [WindowAction::ShowReading, WindowAction::StartPoll]
    );
    assert_eq!(wndproc(0xC124, 0, 0, None, 0xC123), [WindowAction::Forward]);
    assert_eq!(wndproc(0, 0, 0, None, 0), [WindowAction::Forward]);
}

#[test]
fn one_poll_at_a_time_and_a_rate_is_taken_once() {
    let mut polls = Polls::new();
    assert!(polls.start_poll());
    assert!(!polls.start_poll());
    polls.request(4000);
    assert!(polls.request_waits());
    polls.finish_poll();
    assert!(polls.start_poll());
    assert_eq!(polls.take_request(), Some(4000));
    assert_eq!(polls.take_request(), None);
    assert!(!polls.request_waits());
}
