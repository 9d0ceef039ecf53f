//! The tray icon's menu: what it lists, and what a pick means.
use vstd::prelude::*;

use crate::layout::BatteryGlyph;
use crate::protocol::{polling_option, PollingInfo, PollingView};
use crate::settings::{glyph_label, label_of};
use crate::text::{decimal, push_decimal};

verus! {

pub const MENU_REFRESH: usize = 1;

pub const MENU_AUTOSTART: usize = 2;

pub const MENU_EXIT: usize = 3;

/// Polling-rate items are `MENU_RATE_BASE + index into PollingInfo::rates`.
pub const MENU_RATE_BASE: usize = 100;

/// Battery-icon items are `MENU_GLYPH_BASE + index into BatteryGlyph::ALL`.
pub const MENU_GLYPH_BASE: usize = 200;

/// An item that can be picked.
pub struct MenuItem {
    pub label: String,
    pub id: usize,
    pub checked: bool,
}

/// A line of the menu.
pub enum MenuEntry {
    Item(MenuItem),
    Submenu { label: String, items: Vec<MenuItem> },
    Separator,
}

/// The meaning of a `MenuItem`.
#[verifier::ext_equal]
pub struct ItemView {
    pub label: Seq<char>,
    pub id: int,
    pub checked: bool,
}

/// The meaning of a `MenuEntry`.
#[verifier::ext_equal]
pub enum EntryView {
    Item(ItemView),
    Submenu { label: Seq<char>, items: Seq<ItemView> },
    Separator,
}

impl View for MenuItem {
    type V = ItemView;

    open spec fn view(&self) -> ItemView {
        ItemView { label: self.label@, id: self.id as int, checked: self.checked }
    }
}

pub open spec fn items_view(items: Seq<MenuItem>) -> Seq<ItemView> {
    items.map_values(|i: MenuItem| i@)
}

impl View for MenuEntry {
    type V = EntryView;

    open spec fn view(&self) -> EntryView {
        match self {
            MenuEntry::Item(item) => EntryView::Item(item@),
            MenuEntry::Submenu { label, items } => EntryView::Submenu {
                label: label@,
                items: items_view(items@),
            },
            MenuEntry::Separator => EntryView::Separator,
        }
    }
}

pub open spec fn entries_view(entries: Seq<MenuEntry>) -> Seq<EntryView> {
    entries.map_values(|e: MenuEntry| e@)
}

/// How many rates are listed: those before the first one above the ceiling.
pub open spec fn listed(rates: Seq<u16>, max_hz: u16) -> int
    decreases rates.len(),
{
    if rates.len() == 0 || rates[0] > max_hz {
        0
    } else {
        1 + listed(rates.drop_first(), max_hz)
    }
}

/// The polling-rate items: what the current link can do, the current rate checked.
pub open spec fn rate_items(p: PollingView) -> Seq<ItemView> {
    Seq::new(
        listed(p.rates, p.max_hz) as nat,
        |i: int|
            ItemView {
                label: decimal(p.rates[i] as nat) + " Hz"@,
                id: MENU_RATE_BASE + i,
                checked: p.rates[i] == p.hz,
            },
    )
}

/// The battery-icon items, the current choice checked.
pub open spec fn glyph_items(glyph: BatteryGlyph) -> Seq<ItemView> {
    Seq::new(
        3,
        |i: int|
            ItemView {
                label: label_of(BatteryGlyph::ALL@[i]),
                id: MENU_GLYPH_BASE + i,
                checked: BatteryGlyph::ALL@[i] == glyph,
            },
    )
}

/// The menu. The polling rates are there only once the mouse has reported its own.
pub open spec fn menu_entries(
    polling: Option<PollingView>,
    glyph: BatteryGlyph,
    autostart: bool,
) -> Seq<EntryView> {
    seq![
        EntryView::Item(
            ItemView { label: "Refresh now"@, id: MENU_REFRESH as int, checked: false },
        ),
    ] + (match polling {
        Some(p) => seq![EntryView::Submenu { label: "Polling rate"@, items: rate_items(p) }],
        None => Seq::empty(),
    }) + seq![
        EntryView::Submenu { label: "Battery icon"@, items: glyph_items(glyph) },
        EntryView::Item(
            ItemView {
                label: "Start with Windows"@,
                id: MENU_AUTOSTART as int,
                checked: autostart,
            },
        ),
        EntryView::Separator,
        EntryView::Item(ItemView { label: "Exit"@, id: MENU_EXIT as int, checked: false }),
    ]
}

proof fn lemma_listed(rates: Seq<u16>, max_hz: u16)
    ensures
        0 <= listed(rates, max_hz) <= rates.len(),
        forall|i: int| 0 <= i < listed(rates, max_hz) ==> #[trigger] rates[i] <= max_hz,
        listed(rates, max_hz) < rates.len() ==> rates[listed(rates, max_hz)] > max_hz,
    decreases rates.len(),
{
    if rates.len() > 0 && rates[0] <= max_hz {
        let rest = rates.drop_first();
        lemma_listed(rest, max_hz);
        assert forall|i: int| 0 <= i < listed(rates, max_hz) implies #[trigger] rates[i]
            <= max_hz by {
            if i > 0 {
                assert(rates[i] == rest[i - 1]);
            }
        }
        if listed(rates, max_hz) < rates.len() {
            assert(rates[listed(rates, max_hz)] == rest[listed(rest, max_hz)]);
        }
    }
}

fn item(label: &str, id: usize, checked: bool) -> (r: MenuItem)
    ensures
        r@ == (ItemView { label: label@, id: id as int, checked }),
{
    MenuItem { label: label.to_owned(), id, checked }
}

fn rate_submenu(p: &PollingInfo) -> (r: Vec<MenuItem>)
    requires
        p.rates@.len() <= usize::MAX - MENU_RATE_BASE,
    ensures
        items_view(r@) == rate_items(p@),
{
    let mut items: Vec<MenuItem> = Vec::new();
    let ghost all = rate_items(p@);
    proof {
        lemma_listed(p.rates@, p.max_hz);
    }
    assert(items_view(items@) == all.take(0));
    assert(p.rates@.skip(0) == p.rates@);
    let mut i: usize = 0;
    while i < p.rates.len() && p.rates[i] <= p.max_hz
        invariant
            p.rates@.len() <= usize::MAX - MENU_RATE_BASE,
            all == rate_items(p@),
            i <= p.rates@.len(),
            listed(p.rates@, p.max_hz) == i + listed(p.rates@.skip(i as int), p.max_hz),
            0 <= listed(p.rates@, p.max_hz) <= p.rates@.len(),
            i <= listed(p.rates@, p.max_hz),
            items_view(items@) == all.take(i as int),
        decreases p.rates.len() - i,
    {
        let ghost done = items@;
        proof {
            lemma_listed(p.rates@.skip(i as int), p.max_hz);
            lemma_listed(p.rates@.skip(i + 1), p.max_hz);
        }
        assert(p.rates@.skip(i as int).drop_first() == p.rates@.skip(i + 1));
        let hz: u16 = p.rates[i];
        let mut label = String::new();
        push_decimal(&mut label, hz as u32);
        label.append(" Hz");
        assert(label@ == decimal(hz as nat) + " Hz"@);
        items.push(MenuItem { label, id: MENU_RATE_BASE + i, checked: hz == p.hz });
        assert(items_view(items@) == items_view(done).push(all[i as int]));
        assert(all.take(i + 1) == all.take(i as int).push(all[i as int]));
        i += 1;
    }
    assert(all.take(i as int) == all);
    items
}

fn glyph_submenu(glyph: BatteryGlyph) -> (r: Vec<MenuItem>)
    ensures
        items_view(r@) == glyph_items(glyph),
{
    let mut items: Vec<MenuItem> = Vec::new();
    let ghost all = glyph_items(glyph);
    assert(items_view(items@) == all.take(0));
    let mut i: usize = 0;
    while i < 3
        invariant
            all == glyph_items(glyph),
            i <= 3,
            items_view(items@) == all.take(i as int),
        decreases 3 - i,
    {
        let ghost done = items@;
        let g = BatteryGlyph::ALL[i];
        items.push(item(glyph_label(g), MENU_GLYPH_BASE + i, g == glyph));
        assert(items_view(items@) == items_view(done).push(all[i as int]));
        assert(all.take(i + 1) == all.take(i as int).push(all[i as int]));
        i += 1;
    }
    assert(all.take(3) == all);
    items
}

/// The menu, for a mouse with this polling state, the current battery-icon choice,
/// and whether the program starts with Windows.
pub fn show_menu(polling: Option<PollingInfo>, glyph: BatteryGlyph, autostart: bool) -> (r: Vec<
    MenuEntry,
>)
    requires
        polling matches Some(p) ==> p.rates@.len() <= usize::MAX - MENU_RATE_BASE,
    ensures
        entries_view(r@) == menu_entries(polling_option(polling), glyph, autostart),
{
    let mut menu: Vec<MenuEntry> = Vec::new();
    menu.push(MenuEntry::Item(item("Refresh now", MENU_REFRESH, false)));
    match polling {
        Some(p) => {
            let items = rate_submenu(&p);
            menu.push(MenuEntry::Submenu { label: "Polling rate".to_owned(), items });
        },
        None => {},
    }
    menu.push(
        MenuEntry::Submenu { label: "Battery icon".to_owned(), items: glyph_submenu(glyph) },
    );
    menu.push(MenuEntry::Item(item("Start with Windows", MENU_AUTOSTART, autostart)));
    menu.push(MenuEntry::Separator);
    menu.push(MenuEntry::Item(item("Exit", MENU_EXIT, false)));
    assert(entries_view(menu@) == menu_entries(polling_option(polling), glyph, autostart));
    menu
}

// ---------------------------------------------------------------------------
// Picks
/// What a pick from the menu means.
#[derive(Clone, Copy, Debug, PartialEq, Eq, Structural)]
pub enum MenuCommand {
    /// Read the mouse now.
    Refresh,
    /// Start with Windows, or no longer.
    SetAutostart(bool),
    Exit,
    /// Show the battery glyph there, save the choice and redraw.
    ShowGlyph(BatteryGlyph),
    /// Set the polling rate, then read the mouse.
    SetRate(u16),
    /// The menu was dismissed, or the pick is none of its items.
    Nothing,
}

/// The command of an item's id.
pub open spec fn command_of(id: int, polling: Option<PollingView>, autostart: bool) -> MenuCommand {
    if id == MENU_REFRESH {
        MenuCommand::Refresh
    } else if id == MENU_AUTOSTART {
        MenuCommand::SetAutostart(!autostart)
    } else if id == MENU_EXIT {
        MenuCommand::Exit
    } else if MENU_GLYPH_BASE <= id < MENU_GLYPH_BASE + 3 {
        MenuCommand::ShowGlyph(BatteryGlyph::ALL@[id - MENU_GLYPH_BASE])
    } else if polling is Some && MENU_RATE_BASE <= id < MENU_RATE_BASE + polling->0.rates.len() {
        MenuCommand::SetRate(polling->0.rates[id - MENU_RATE_BASE])
    } else {
        MenuCommand::Nothing
    }
}

/// What picking the item `id` means (0 where the menu was dismissed).
pub fn menu_command(id: usize, polling: Option<PollingInfo>, autostart: bool) -> (r: MenuCommand)
    ensures
        r == command_of(id as int, polling_option(polling), autostart),
{
    if id == MENU_REFRESH {
        return MenuCommand::Refresh;
    }
    if id == MENU_AUTOSTART {
        return MenuCommand::SetAutostart(!autostart);
    }
    if id == MENU_EXIT {
        return MenuCommand::Exit;
    }
    if id >= MENU_GLYPH_BASE && id - MENU_GLYPH_BASE < 3 {
        return MenuCommand::ShowGlyph(BatteryGlyph::ALL[id - MENU_GLYPH_BASE]);
    }
    match polling {
        Some(p) => if id >= MENU_RATE_BASE && id - MENU_RATE_BASE < p.rates.len() {
            MenuCommand::SetRate(p.rates[id - MENU_RATE_BASE])
        } else {
            MenuCommand::Nothing
        },
        None => MenuCommand::Nothing,
    }
}

// ---------------------------------------------------------------------------
// Laws
/// Picking a listed rate sets just that rate, which the current link supports.
pub proof fn law_listed_rate_is_set(p: PollingView, autostart: bool, i: int)
    requires
        0 <= i < rate_items(p).len(),
        i < MENU_GLYPH_BASE - MENU_RATE_BASE,
    ensures
        ({
            let item = rate_items(p)[i];
            &&& command_of(item.id, Some(p), autostart) == MenuCommand::SetRate(p.rates[i])
            &&& p.rates[i] <= p.max_hz
            &&& item.label == decimal(p.rates[i] as nat) + " Hz"@
        }),
{
    lemma_listed(p.rates, p.max_hz);
}

/// Every rate that the current link supports is listed.
pub proof fn law_supported_rates_are_listed(p: PollingView, i: int)
    requires
        forall|a: int, b: int| 0 <= a < b < p.rates.len() ==> p.rates[a] < p.rates[b],
        0 <= i < p.rates.len(),
        p.rates[i] <= p.max_hz,
    ensures
        i < rate_items(p).len(),
{
    lemma_listed(p.rates, p.max_hz);
    let n = listed(p.rates, p.max_hz);
    if n <= i && n < p.rates.len() {
        assert(p.rates[n] > p.max_hz);
        if n < i {
            assert(p.rates[n] < p.rates[i]);
        }
    }
}

/// Just the current rate is checked.
pub proof fn law_current_rate_is_checked(p: PollingView, i: int)
    requires
        0 <= i < rate_items(p).len(),
    ensures
        rate_items(p)[i].checked <==> p.rates[i] == p.hz,
{
}

/// Picking a battery-icon item shows the glyph there, and just the current choice
/// is checked.
pub proof fn law_glyph_item_is_shown(
    glyph: BatteryGlyph,
    polling: Option<PollingView>,
    autostart: bool,
    i: int,
)
    requires
        0 <= i < 3,
    ensures
        ({
            let item = glyph_items(glyph)[i];
            &&& command_of(item.id, polling, autostart) == MenuCommand::ShowGlyph(
                BatteryGlyph::ALL@[i],
            )
            &&& item.checked <==> BatteryGlyph::ALL@[i] == glyph
        }),
{
}

/// Dismissing the menu does nothing, and picking the autostart item turns what is
/// checked around.
pub proof fn law_fixed_items(polling: Option<PollingView>, autostart: bool)
    ensures
        command_of(0, polling, autostart) == MenuCommand::Nothing,
        command_of(MENU_AUTOSTART as int, polling, autostart) == MenuCommand::SetAutostart(
            !autostart,
        ),
        command_of(MENU_REFRESH as int, polling, autostart) == MenuCommand::Refresh,
        command_of(MENU_EXIT as int, polling, autostart) == MenuCommand::Exit,
{
}

// ---------------------------------------------------------------------------
// What is listed
/// The menu from top to bottom: "Refresh now"; the polling rates, only where the
/// mouse has reported its own; the battery-icon choices; "Start with Windows",
/// checked where it does; a separator; "Exit".
pub proof fn law_menu_lines(p: PollingView, glyph: BatteryGlyph, autostart: bool)
    ensures
        ({
            let with = menu_entries(Some(p), glyph, autostart);
            let without = menu_entries(None, glyph, autostart);
            &&& without.len() == 5
            &&& without[0] == EntryView::Item(
                ItemView { label: "Refresh now"@, id: 1, checked: false },
            )
            &&& without[1] == (EntryView::Submenu {
                label: "Battery icon"@,
                items: glyph_items(glyph),
            })
            &&& without[2] == EntryView::Item(
                ItemView { label: "Start with Windows"@, id: 2, checked: autostart },
            )
            &&& without[3] == EntryView::Separator
            &&& without[4] == EntryView::Item(ItemView { label: "Exit"@, id: 3, checked: false })
            &&& with == without.insert(
                1,
                EntryView::Submenu { label: "Polling rate"@, items: rate_items(p) },
            )
        }),
{
    let with = menu_entries(Some(p), glyph, autostart);
    let without = menu_entries(None, glyph, autostart);
    assert(with == without.insert(
        1,
        EntryView::Submenu { label: "Polling rate"@, items: rate_items(p) },
    ));
}

/// The rate items count from 100 and read "<rate> Hz"; they are the rates in front
/// of the first one above the ceiling, all of them where there is none, and the
/// current one is checked.
pub proof fn law_rate_items(p: PollingView, i: int)
    ensures
        rate_items(p).len() <= p.rates.len(),
        rate_items(p).len() < p.rates.len() ==> p.rates[rate_items(p).len() as int] > p.max_hz,
        0 <= i < rate_items(p).len() ==> {
            &&& p.rates[i] <= p.max_hz
            &&& rate_items(p)[i].id == 100 + i
            &&& rate_items(p)[i].label == decimal(p.rates[i] as nat) + " Hz"@
            &&& rate_items(p)[i].checked <==> p.rates[i] == p.hz
        },
{
    lemma_listed(p.rates, p.max_hz);
}

/// The battery-icon items count from 200: "Hidden", "Above the number" and "Below
/// the number", the current choice checked.
pub proof fn law_glyph_items(glyph: BatteryGlyph)
    ensures
        ({
            let items = glyph_items(glyph);
            &&& items.len() == 3
            &&& items[0].id == 200 && items[0].label == "Hidden"@
            &&& items[1].id == 201 && items[1].label == "Above the number"@
            &&& items[2].id == 202 && items[2].label == "Below the number"@
            &&& items[0].checked <==> glyph == BatteryGlyph::Hidden
            &&& items[1].checked <==> glyph == BatteryGlyph::Above
            &&& items[2].checked <==> glyph == BatteryGlyph::Below
        }),
{
}

/// What each id does: 1 refreshes, 2 turns autostart around, 3 exits, 200 to 202
/// show the glyph nowhere, above or below, other ids from 100 on set the rate at
/// that place of the mouse's list, and all else does nothing.
pub proof fn law_commands(id: int, polling: Option<PollingView>, autostart: bool)
    ensures
        id == 1 ==> command_of(id, polling, autostart) == MenuCommand::Refresh,
        id == 2 ==> command_of(id, polling, autostart) == MenuCommand::SetAutostart(!autostart),
        id == 3 ==> command_of(id, polling, autostart) == MenuCommand::Exit,
        id == 200 ==> command_of(id, polling, autostart) == MenuCommand::ShowGlyph(
            BatteryGlyph::Hidden,
        ),
        id == 201 ==> command_of(id, polling, autostart) == MenuCommand::ShowGlyph(
            BatteryGlyph::Above,
        ),
        id == 202 ==> command_of(id, polling, autostart) == MenuCommand::ShowGlyph(
            BatteryGlyph::Below,
        ),
        polling is Some && 100 <= id < 100 + polling->0.rates.len() && !(200 <= id <= 202)
            ==> command_of(id, polling, autostart) == MenuCommand::SetRate(
            polling->0.rates[id - 100],
        ),
        !(1 <= id <= 3) && !(200 <= id <= 202) && (polling is None || id < 100 || id >= 100
            + polling->0.rates.len()) ==> command_of(id, polling, autostart)
            == MenuCommand::Nothing,
{
}

} // verus!
