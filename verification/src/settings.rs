//! What is kept in the registry: the battery-icon choice and the autostart entry.
use vstd::prelude::*;

use crate::layout::BatteryGlyph;
use crate::text::{utf16, wide};

verus! {

pub const SETTINGS_KEY: &'static str = "Software\\mousebatt";

pub const GLYPH_VALUE: &'static str = "BatteryGlyph";

pub const RUN_KEY: &'static str = "Software\\Microsoft\\Windows\\CurrentVersion\\Run";

pub const RUN_VALUE: &'static str = "MouseBatt";

/// Used until the user picks another from the menu: the plain number.
pub const DEFAULT_GLYPH: BatteryGlyph = BatteryGlyph::Hidden;

/// The stored number of a battery-icon choice.
pub open spec fn setting_of(g: BatteryGlyph) -> u32 {
    match g {
        BatteryGlyph::Hidden => 0,
        BatteryGlyph::Above => 1,
        BatteryGlyph::Below => 2,
    }
}

/// The REG_DWORD stored for a battery-icon choice.
pub fn glyph_setting(g: BatteryGlyph) -> (r: u32)
    ensures
        r == setting_of(g),
{
    match g {
        BatteryGlyph::Hidden => 0,
        BatteryGlyph::Above => 1,
        BatteryGlyph::Below => 2,
    }
}

/// The battery-icon choice that a stored number stands for.
pub fn glyph_from_setting(value: u32) -> (r: Option<BatteryGlyph>)
    ensures
        match r {
            Some(g) => setting_of(g) == value,
            None => forall|g: BatteryGlyph| #[trigger] setting_of(g) != value,
        },
{
    match value {
        0 => Some(BatteryGlyph::Hidden),
        1 => Some(BatteryGlyph::Above),
        2 => Some(BatteryGlyph::Below),
        _ => None,
    }
}

/// The choice that a registry read stands for.
pub open spec fn loaded(status: u32, value: u32) -> BatteryGlyph {
    if status != 0 {
        DEFAULT_GLYPH
    } else if value == 1 {
        BatteryGlyph::Above
    } else if value == 2 {
        BatteryGlyph::Below
    } else if value == 0 {
        BatteryGlyph::Hidden
    } else {
        DEFAULT_GLYPH
    }
}

/// The saved battery-icon choice, by the status and value of reading it, or the
/// default if none (or an unknown one) is stored.
pub fn load_glyph(status: u32, value: u32) -> (r: BatteryGlyph)
    ensures
        r == loaded(status, value),
{
    if status != 0 {
        return DEFAULT_GLYPH;
    }
    match glyph_from_setting(value) {
        Some(g) => g,
        None => {
            assert(setting_of(BatteryGlyph::Hidden) != value);
            assert(setting_of(BatteryGlyph::Above) != value);
            assert(setting_of(BatteryGlyph::Below) != value);
            DEFAULT_GLYPH
        },
    }
}

/// A saved choice is the one that is loaded; what can't be read or is unknown
/// gives the plain number.
pub proof fn law_saved_glyph_is_loaded(g: BatteryGlyph, status: u32, value: u32)
    ensures
        loaded(0, setting_of(g)) == g,
        status != 0 || value > 2 ==> loaded(status, value) == BatteryGlyph::Hidden,
{
}

/// The menu's name of a battery-icon choice.
pub open spec fn label_of(g: BatteryGlyph) -> Seq<char> {
    match g {
        BatteryGlyph::Hidden => "Hidden"@,
        BatteryGlyph::Above => "Above the number"@,
        BatteryGlyph::Below => "Below the number"@,
    }
}

/// The menu's name of a battery-icon choice.
pub fn glyph_label(g: BatteryGlyph) -> (r: &'static str)
    ensures
        r@ == label_of(g),
{
    match g {
        BatteryGlyph::Hidden => "Hidden",
        BatteryGlyph::Above => "Above the number",
        BatteryGlyph::Below => "Below the number",
    }
}

/// A path in quotes as a null-terminated UTF-16 string.
pub open spec fn run_units(exe: Seq<char>) -> Seq<u16> {
    utf16(seq!['"'] + exe + seq!['"']).push(0)
}

/// The value stored to start the program with Windows: its path in quotes,
/// null-terminated.
pub fn autostart_value(exe: &str) -> (r: Vec<u16>)
    ensures
        r@ == run_units(exe@),
{
    let mut value = String::new();
    value.push('"');
    value.append(exe);
    value.push('"');
    assert(value@ == seq!['"'] + exe@ + seq!['"']);
    wide(value.as_str())
}

/// The stored numbers are 0, 1 and 2 for hidden, above and below; any other number,
/// or none, is loaded as hidden.
pub proof fn law_stored_numbers(status: u32, value: u32)
    ensures
        setting_of(BatteryGlyph::Hidden) == 0,
        setting_of(BatteryGlyph::Above) == 1,
        setting_of(BatteryGlyph::Below) == 2,
        loaded(status, value) == BatteryGlyph::Above <==> status == 0 && value == 1,
        loaded(status, value) == BatteryGlyph::Below <==> status == 0 && value == 2,
        label_of(BatteryGlyph::Hidden) == "Hidden"@,
        label_of(BatteryGlyph::Above) == "Above the number"@,
        label_of(BatteryGlyph::Below) == "Below the number"@,
{
}

/// The value that starts the program with Windows ends with a null and reads, before
/// it, as the path between two quotes.
pub proof fn law_run_value(exe: Seq<char>)
    ensures
        run_units(exe).last() == 0,
        ({
            let text = crate::text::utf16_text(run_units(exe).drop_last());
            &&& text.len() == exe.len() + 2
            &&& text.first() == '"'
            &&& text.last() == '"'
            &&& text.subrange(1, exe.len() as int + 1) == exe
        }),
{
    let quoted = seq!['"'] + exe + seq!['"'];
    crate::text::law_utf16_reads_back(quoted);
    assert(run_units(exe).drop_last() == utf16(quoted));
    assert(quoted.subrange(1, exe.len() as int + 1) == exe);
}

} // verus!
