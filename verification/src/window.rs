//! What the hidden window does on a message.
//!
//! Zero-CPU design: the program is blocked waiting for messages, woken by a coarse
//! poll timer, device-change broadcasts, or resume from sleep.
use vstd::prelude::*;

use crate::text::{utf16, wide};

verus! {

/// Every four minutes.
pub const POLL_INTERVAL_MS: u32 = 240_000;

/// One replug fires many device-change broadcasts.
pub const DEBOUNCE_MS: u32 = 2500;

pub const RESUME_MS: u32 = 5000;

pub const THEME_MS: u32 = 300;

pub const WM_CREATE: u32 = 0x0001;

pub const WM_DESTROY: u32 = 0x0002;

pub const WM_SETTINGCHANGE: u32 = 0x001A;

pub const WM_TIMER: u32 = 0x0113;

pub const WM_LBUTTONUP: u32 = 0x0202;

pub const WM_RBUTTONUP: u32 = 0x0205;

pub const WM_POWERBROADCAST: u32 = 0x0218;

pub const WM_DEVICECHANGE: u32 = 0x0219;

pub const WM_DPICHANGED: u32 = 0x02E0;

pub const WMAPP_TRAY: u32 = 0x8001;

pub const WMAPP_POLLDONE: u32 = 0x8002;

pub const WMAPP_REDRAW: u32 = 0x8003;

pub const DBT_DEVNODES_CHANGED: usize = 0x0007;

pub const PBT_APMRESUMEAUTOMATIC: usize = 0x0012;

pub const TIMER_POLL: usize = 1;

pub const TIMER_DEBOUNCE: usize = 2;

pub const TIMER_THEME: usize = 3;

/// One thing to do on a message.
#[derive(Clone, Copy, Debug, PartialEq, Eq, Structural)]
pub enum WindowAction {
    /// Add the icon, showing that the mouse is being read.
    ShowReading,
    SetTimer { id: usize, ms: u32 },
    KillTimer { id: usize },
    /// Poll the mouse, unless a poll is already in flight.
    StartPoll,
    /// Read the taskbar's colour anew, then redraw what the icon last showed.
    RedrawWorker,
    /// Take the poll result that came with the message.
    FinishPoll,
    /// Redraw what the icon last showed.
    Redraw,
    ShowMenu,
    RemoveTray,
    Quit,
    /// Leave the message to the system.
    Forward,
}

/// Whether a changed setting is the theme: the string starts with the name's
/// units, its null included.
pub open spec fn is_theme(setting: Seq<u16>) -> bool {
    utf16("ImmersiveColorSet"@).push(0).is_prefix_of(setting)
}

/// What is done on a message. `setting` is the changed setting that came with it,
/// if any, and `taskbar_created` the message by which a restarted taskbar makes
/// itself known.
pub open spec fn reaction(
    msg: u32,
    wparam: usize,
    lparam: isize,
    setting: Option<Seq<u16>>,
    taskbar_created: u32,
) -> Seq<WindowAction> {
    if msg == WM_CREATE {
        seq![
            WindowAction::ShowReading,
            WindowAction::SetTimer { id: TIMER_POLL, ms: POLL_INTERVAL_MS },
            WindowAction::StartPoll,
        ]
    } else if msg == WM_TIMER {
        if wparam == TIMER_POLL {
            seq![WindowAction::StartPoll]
        } else if wparam == TIMER_DEBOUNCE {
            seq![WindowAction::KillTimer { id: TIMER_DEBOUNCE }, WindowAction::StartPoll]
        } else if wparam == TIMER_THEME {
            seq![WindowAction::KillTimer { id: TIMER_THEME }, WindowAction::RedrawWorker]
        } else {
            seq![]
        }
    } else if msg == WM_DEVICECHANGE {
        if wparam == DBT_DEVNODES_CHANGED {
            seq![WindowAction::SetTimer { id: TIMER_DEBOUNCE, ms: DEBOUNCE_MS }]
        } else {
            seq![]
        }
    } else if msg == WM_POWERBROADCAST {
        if wparam == PBT_APMRESUMEAUTOMATIC {
            seq![WindowAction::SetTimer { id: TIMER_DEBOUNCE, ms: RESUME_MS }]
        } else {
            seq![]
        }
    } else if msg == WM_SETTINGCHANGE {
        if setting is Some && is_theme(setting->0) {
            seq![WindowAction::SetTimer { id: TIMER_THEME, ms: THEME_MS }]
        } else {
            seq![]
        }
    } else if msg == WM_DPICHANGED {
        seq![WindowAction::RedrawWorker]
    } else if msg == WMAPP_POLLDONE {
        seq![WindowAction::FinishPoll]
    } else if msg == WMAPP_REDRAW {
        seq![WindowAction::Redraw]
    } else if msg == WMAPP_TRAY {
        if (lparam & 0xffff) as u32 == WM_LBUTTONUP {
            seq![WindowAction::StartPoll]
        } else if (lparam & 0xffff) as u32 == WM_RBUTTONUP {
            seq![WindowAction::ShowMenu]
        } else {
            seq![]
        }
    } else if msg == WM_DESTROY {
        seq![WindowAction::RemoveTray, WindowAction::Quit]
    } else if msg != 0 && msg == taskbar_created {
        seq![WindowAction::ShowReading, WindowAction::StartPoll]
    } else {
        seq![WindowAction::Forward]
    }
}

fn theme_changed(setting: &[u16]) -> (r: bool)
    ensures
        r <==> is_theme(setting@),
{
    let name = wide("ImmersiveColorSet");
    if setting.len() < name.len() {
        return false;
    }
    let mut i: usize = 0;
    while i < name.len()
        invariant
            name@ == utf16("ImmersiveColorSet"@).push(0),
            name@.len() <= setting@.len(),
            i <= name.len(),
            forall|k: int| 0 <= k < i ==> #[trigger] setting@[k] == name@[k],
        decreases name.len() - i,
    {
        if setting[i] != name[i] {
            assert(setting@.subrange(0, name@.len() as int)[i as int] != name@[i as int]);
            return false;
        }
        i += 1;
    }
    assert(setting@.subrange(0, name@.len() as int) == name@);
    true
}

pub open spec fn units_option(setting: Option<&[u16]>) -> Option<Seq<u16>> {
    match setting {
        Some(units) => Some(units@),
        None => None,
    }
}

/// What to do on a message, in order.
///
/// A theme switch needs a fresh taskbar colour and a redraw of the last view only,
/// so it gets its own timer instead of a mouse poll (which would be dropped while
/// one is in flight). This also stops every accent-colour broadcast from polling
/// the mouse.
pub fn wndproc(
    msg: u32,
    wparam: usize,
    lparam: isize,
    setting: Option<&[u16]>,
    taskbar_created: u32,
) -> (r: Vec<WindowAction>)
    ensures
        r@ == reaction(msg, wparam, lparam, units_option(setting), taskbar_created),
{
    if msg == WM_CREATE {
        vec![
            WindowAction::ShowReading,
            WindowAction::SetTimer { id: TIMER_POLL, ms: POLL_INTERVAL_MS },
            WindowAction::StartPoll,
        ]
    } else if msg == WM_TIMER {
        if wparam == TIMER_POLL {
            vec![WindowAction::StartPoll]
        } else if wparam == TIMER_DEBOUNCE {
            vec![WindowAction::KillTimer { id: TIMER_DEBOUNCE }, WindowAction::StartPoll]
        } else if wparam == TIMER_THEME {
            vec![WindowAction::KillTimer { id: TIMER_THEME }, WindowAction::RedrawWorker]
        } else {
            vec![]
        }
    } else if msg == WM_DEVICECHANGE {
        if wparam == DBT_DEVNODES_CHANGED {
            vec![WindowAction::SetTimer { id: TIMER_DEBOUNCE, ms: DEBOUNCE_MS }]
        } else {
            vec![]
        }
    } else if msg == WM_POWERBROADCAST {
        if wparam == PBT_APMRESUMEAUTOMATIC {
            vec![WindowAction::SetTimer { id: TIMER_DEBOUNCE, ms: RESUME_MS }]
        } else {
            vec![]
        }
    } else if msg == WM_SETTINGCHANGE {
        let theme = match setting {
            Some(units) => theme_changed(units),
            None => false,
        };
        if theme {
            vec![WindowAction::SetTimer { id: TIMER_THEME, ms: THEME_MS }]
        } else {
            vec![]
        }
    } else if msg == WM_DPICHANGED {
        vec![WindowAction::RedrawWorker]
    } else if msg == WMAPP_POLLDONE {
        vec![WindowAction::FinishPoll]
    } else if msg == WMAPP_REDRAW {
        vec![WindowAction::Redraw]
    } else if msg == WMAPP_TRAY {
        if (lparam & 0xffff) as u32 == WM_LBUTTONUP {
            vec![WindowAction::StartPoll]
        } else if (lparam & 0xffff) as u32 == WM_RBUTTONUP {
            vec![WindowAction::ShowMenu]
        } else {
            vec![]
        }
    } else if msg == WM_DESTROY {
        vec![WindowAction::RemoveTray, WindowAction::Quit]
    } else if msg != 0 && msg == taskbar_created {
        vec![WindowAction::ShowReading, WindowAction::StartPoll]
    } else {
        vec![WindowAction::Forward]
    }
}

/// From its creation on, the window polls the mouse every four minutes.
pub proof fn law_mouse_is_polled_every_four_minutes(
    lparam: isize,
    setting: Option<Seq<u16>>,
    taskbar_created: u32,
)
    ensures
        reaction(WM_CREATE, 0, lparam, setting, taskbar_created).contains(
            WindowAction::SetTimer { id: TIMER_POLL, ms: (4 * 60 * 1000) as u32 },
        ),
        reaction(WM_TIMER, TIMER_POLL, lparam, setting, taskbar_created) == seq![
            WindowAction::StartPoll,
        ],
{
    assert(reaction(WM_CREATE, 0, lparam, setting, taskbar_created)[1] == (WindowAction::SetTimer {
        id: TIMER_POLL,
        ms: 240_000,
    }));
}

/// A replug or a resume from sleep does not poll the mouse itself but sets the
/// debounce timer, which, when it fires, is gone and has the mouse polled.
pub proof fn law_device_changes_are_debounced(
    msg: u32,
    wparam: usize,
    lparam: isize,
    setting: Option<Seq<u16>>,
    taskbar_created: u32,
)
    requires
        (msg == WM_DEVICECHANGE && wparam == DBT_DEVNODES_CHANGED) || (msg == WM_POWERBROADCAST
            && wparam == PBT_APMRESUMEAUTOMATIC),
    ensures
        reaction(msg, wparam, lparam, setting, taskbar_created) == seq![
            WindowAction::SetTimer {
                id: TIMER_DEBOUNCE,
                ms: if msg == WM_DEVICECHANGE {
                    DEBOUNCE_MS
                } else {
                    RESUME_MS
                },
            },
        ],
        reaction(WM_TIMER, TIMER_DEBOUNCE, lparam, setting, taskbar_created) == seq![
            WindowAction::KillTimer { id: TIMER_DEBOUNCE },
            WindowAction::StartPoll,
        ],
{
}

/// A setting or scale change never polls the mouse. A theme switch sets the theme
/// timer, which, when it fires, is gone and has the icon redrawn.
pub proof fn law_display_changes_only_redraw(
    msg: u32,
    wparam: usize,
    lparam: isize,
    setting: Option<Seq<u16>>,
    taskbar_created: u32,
)
    requires
        msg == WM_SETTINGCHANGE || msg == WM_DPICHANGED || msg == WMAPP_REDRAW,
    ensures
        !reaction(msg, wparam, lparam, setting, taskbar_created).contains(WindowAction::StartPoll),
        msg == WM_SETTINGCHANGE && setting is Some && is_theme(setting->0) ==> reaction(
            msg,
            wparam,
            lparam,
            setting,
            taskbar_created,
        ) == seq![WindowAction::SetTimer { id: TIMER_THEME, ms: THEME_MS }],
        reaction(WM_TIMER, TIMER_THEME, lparam, setting, taskbar_created) == seq![
            WindowAction::KillTimer { id: TIMER_THEME },
            WindowAction::RedrawWorker,
        ],
{
}

// ---------------------------------------------------------------------------
// Polls
/// The polls: whether one is in flight, and the polling rate the user picked for
/// the next one to set before it reads the battery (0 = nothing pending).
#[derive(Clone, Copy, Debug, PartialEq, Eq, Structural)]
pub struct Polls {
    pub in_flight: bool,
    pub requested_hz: u16,
}

impl Polls {
    pub open spec fn after_start(self) -> Polls {
        Polls { in_flight: true, ..self }
    }

    pub open spec fn after_finish(self) -> Polls {
        Polls { in_flight: false, ..self }
    }

    pub open spec fn after_request(self, hz: u16) -> Polls {
        Polls { requested_hz: hz, ..self }
    }

    /// The rate that is waiting to be set.
    pub open spec fn pending(self) -> Option<u16> {
        if self.requested_hz != 0 {
            Some(self.requested_hz)
        } else {
            None
        }
    }

    pub open spec fn after_take(self) -> Polls {
        Polls { requested_hz: 0, ..self }
    }

    pub fn new() -> (r: Polls)
        ensures
            !r.in_flight,
            r.pending() is None,
    {
        Polls { in_flight: false, requested_hz: 0 }
    }

    /// Start a poll; `false` if one is already in flight.
    pub fn start_poll(&mut self) -> (r: bool)
        ensures
            r == !old(self).in_flight,
            *final(self) == old(self).after_start(),
    {
        let started = !self.in_flight;
        self.in_flight = true;
        started
    }

    /// Note that the poll is over.
    pub fn finish_poll(&mut self)
        ensures
            *final(self) == old(self).after_finish(),
    {
        self.in_flight = false;
    }

    /// Ask the next poll to set a polling rate.
    pub fn request(&mut self, hz: u16)
        ensures
            *final(self) == old(self).after_request(hz),
    {
        self.requested_hz = hz;
    }

    /// The polling rate that a poll has to set before it reads, if one is pending.
    /// It is then no longer.
    pub fn take_request(&mut self) -> (r: Option<u16>)
        ensures
            r == old(self).pending(),
            *final(self) == old(self).after_take(),
    {
        let hz: u16 = self.requested_hz;
        self.requested_hz = 0;
        if hz != 0 {
            Some(hz)
        } else {
            None
        }
    }

    /// Whether a rate, picked while a poll was in flight, is still waiting, so that
    /// another poll is due.
    pub fn request_waits(&self) -> (r: bool)
        ensures
            r <==> self.pending() is Some,
    {
        self.requested_hz != 0
    }
}

/// A poll that started keeps others from starting until it is over.
pub proof fn law_one_poll_at_a_time(polls: Polls, hz: u16)
    ensures
        polls.after_start().in_flight,
        !polls.after_finish().in_flight,
        polls.after_request(hz).in_flight == polls.in_flight,
        polls.after_take().in_flight == polls.in_flight,
{
}

/// A picked rate waits, through polls that start and end, until one poll takes it,
/// and no other poll takes it again.
pub proof fn law_rate_is_taken_once(polls: Polls, hz: u16)
    requires
        hz != 0,
    ensures
        polls.after_request(hz).pending() == Some(hz),
        polls.after_request(hz).requested_hz == hz,
        polls.after_start().pending() == polls.pending(),
        polls.after_finish().pending() == polls.pending(),
        polls.after_take().pending() is None,
{
}

// ---------------------------------------------------------------------------
// What each message does
/// Whether the window has something of its own to do on a message.
pub open spec fn is_handled(msg: u32) -> bool {
    msg == 0x0001 || msg == 0x0002 || msg == 0x001A || msg == 0x0113 || msg == 0x0218 || msg
        == 0x0219 || msg == 0x02E0 || msg == 0x8001 || msg == 0x8002 || msg == 0x8003
}

/// The mouse is polled when the window is created, when a poll or the debounce timer
/// fires, on a left click on the icon, and when the taskbar was created anew; on
/// nothing else.
pub proof fn law_when_the_mouse_is_polled(
    msg: u32,
    wparam: usize,
    lparam: isize,
    setting: Option<Seq<u16>>,
    taskbar_created: u32,
)
    ensures
        reaction(msg, wparam, lparam, setting, taskbar_created).contains(WindowAction::StartPoll)
            <==> {
            ||| msg == 0x0001
            ||| msg == 0x0113 && (wparam == 1 || wparam == 2)
            ||| msg == 0x8001 && (lparam & 0xffff) as u32 == 0x0202
            ||| msg == taskbar_created && msg != 0 && !is_handled(msg)
        },
{
    let r = reaction(msg, wparam, lparam, setting, taskbar_created);
    if msg == 0x0001 {
        assert(r[2] == WindowAction::StartPoll);
    } else if msg == 0x0113 && wparam == 2 {
        assert(r[1] == WindowAction::StartPoll);
    } else if msg == 0x0113 && wparam == 1 {
        assert(r[0] == WindowAction::StartPoll);
    } else if msg == 0x8001 && (lparam & 0xffff) as u32 == 0x0202 {
        assert(r[0] == WindowAction::StartPoll);
    } else if msg == taskbar_created && msg != 0 && !is_handled(msg) {
        assert(r[1] == WindowAction::StartPoll);
    }
}

/// What else is done, message by message: creation adds the icon first and sets the
/// four-minute timer; a right click opens the menu; a poll result is taken and a
/// redraw done; destruction removes the icon and quits; a new taskbar gets the icon
/// again; a message that is none of the window's is left to the system, and no
/// other is.
pub proof fn law_messages(
    msg: u32,
    wparam: usize,
    lparam: isize,
    setting: Option<Seq<u16>>,
    taskbar_created: u32,
)
    ensures
        ({
            let r = reaction(msg, wparam, lparam, setting, taskbar_created);
            let other = !is_handled(msg);
            &&& msg == 0x0001 ==> r == seq![
                WindowAction::ShowReading,
                WindowAction::SetTimer { id: 1, ms: 240_000 },
                WindowAction::StartPoll,
            ]
            &&& msg == 0x0113 && wparam == 1 ==> r == seq![WindowAction::StartPoll]
            &&& msg == 0x0113 && wparam == 2 ==> r == seq![
                WindowAction::KillTimer { id: 2 },
                WindowAction::StartPoll,
            ]
            &&& msg == 0x0113 && wparam == 3 ==> r == seq![
                WindowAction::KillTimer { id: 3 },
                WindowAction::RedrawWorker,
            ]
            &&& msg == 0x0113 && wparam != 1 && wparam != 2 && wparam != 3 ==> r.len() == 0
            &&& msg == 0x0219 && wparam == 7 ==> r == seq![
                WindowAction::SetTimer { id: 2, ms: 2500 },
            ]
            &&& msg == 0x0219 && wparam != 7 ==> r.len() == 0
            &&& msg == 0x0218 && wparam == 0x12 ==> r == seq![
                WindowAction::SetTimer { id: 2, ms: 5000 },
            ]
            &&& msg == 0x0218 && wparam != 0x12 ==> r.len() == 0
            &&& msg == 0x001A && setting is Some && is_theme(setting->0) ==> r == seq![
                WindowAction::SetTimer { id: 3, ms: 300 },
            ]
            &&& msg == 0x001A && (setting is None || !is_theme(setting->0)) ==> r.len() == 0
            &&& msg == 0x02E0 ==> r == seq![WindowAction::RedrawWorker]
            &&& msg == 0x8002 ==> r == seq![WindowAction::FinishPoll]
            &&& msg == 0x8003 ==> r == seq![WindowAction::Redraw]
            &&& msg == 0x8001 && (lparam & 0xffff) as u32 == 0x0202 ==> r == seq![
                WindowAction::StartPoll,
            ]
            &&& msg == 0x8001 && (lparam & 0xffff) as u32 == 0x0205 ==> r == seq![
                WindowAction::ShowMenu,
            ]
            &&& msg == 0x8001 && (lparam & 0xffff) as u32 != 0x0202 && (lparam & 0xffff) as u32
                != 0x0205 ==> r.len() == 0
            &&& msg == 0x0002 ==> r == seq![WindowAction::RemoveTray, WindowAction::Quit]
            &&& other && msg != 0 && msg == taskbar_created ==> r == seq![
                WindowAction::ShowReading,
                WindowAction::StartPoll,
            ]
            &&& other && (msg == 0 || msg != taskbar_created) ==> r == seq![WindowAction::Forward]
        }),
{
}

/// A setting is the theme where its units are "ImmersiveColorSet" and a null.
pub proof fn law_theme_setting(setting: Seq<u16>)
    ensures
        is_theme(setting) <==> {
            &&& setting.len() >= 18
            &&& forall|i: int|
                0 <= i < 17 ==> #[trigger] setting[i] == "ImmersiveColorSet"@[i] as u32
            &&& setting[17] == 0
        },
{
    let name = "ImmersiveColorSet"@;
    reveal_strlit("ImmersiveColorSet");
    assert forall|i: int| 0 <= i < name.len() implies (#[trigger] name[i] as u32) < 0x10000 by {}
    crate::text::law_utf16_plain(name);
    let w = utf16(name).push(0);
    assert(name.len() == 17);
    if is_theme(setting) {
        let head = setting.subrange(0, 18);
        assert(head == w);
        assert forall|i: int| 0 <= i < 17 implies #[trigger] setting[i] == name[i] as u32 by {
            assert(head[i] == setting[i]);
            assert(w[i] == utf16(name)[i]);
        }
        assert(head[17] == setting[17]);
    } else if setting.len() >= 18 && setting[17] == 0 && (forall|i: int|
        0 <= i < 17 ==> #[trigger] setting[i] == name[i] as u32) {
        assert forall|i: int| 0 <= i < 18 implies setting.subrange(0, 18)[i] == w[i] by {
            if i < 17 {
                assert(setting[i] == name[i] as u32);
                assert(utf16(name)[i] == name[i] as u32);
            }
        }
        assert(setting.subrange(0, 18) == w);
    }
}

} // verus!
