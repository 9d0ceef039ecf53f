//! Talking to a mouse: which call comes next, and what its outcome means.
//!
//! Reading the battery and setting the polling rate are state machines over whole
//! exchanges with the mouse. An exchange, in turn, is one over the device calls.
//! The program performs what the state asks for and hands the outcome back.
use vstd::prelude::*;

use crate::hid::{DeviceView, HidDeviceInfo, PULSAR_VID, VAXEE_VID};
use crate::protocol::{
    acknowledges, code_of, echoes, find_pulsar, find_vaxee, index_of, is_valid, link_max_of, named,
    parse_pulsar, parse_pulsar_link_max, parse_pulsar_polling, parse_vaxee, parse_vaxee_polling,
    polling_of, pulsar_frame, pulsar_info_request, pulsar_mem_get, pulsar_mem_set,
    pulsar_rate_code, pulsar_set_acked, pulsar_status, read_request, set_rate_frame, speaker,
    vaxee_polling, vaxee_rate_index, vaxee_request, vaxee_status, vaxee_valid, vaxee_write_acked,
    vaxee_write_request, with_vendor, write_request, BatteryStatus, PollingInfo, PollingView,
    ReadResult, ReadView, StatusView, PULSAR_ADDR_POLLING, PULSAR_CMD_INFO, PULSAR_CMD_MEM_GET,
    PULSAR_CMD_POWER, PULSAR_MAGIC, PULSAR_RATES, PULSAR_REPORT_ID, PULSAR_USAGE_PAGE,
    VAXEE_CMD_BATTERY, VAXEE_CMD_CHARGING, VAXEE_CMD_RATE, VAXEE_CMD_TRACKING, VAXEE_RATES,
    VAXEE_USAGE_PAGE,
};

verus! {

/// Attempts before a mouse counts as not responding: a sleeping one ignores the
/// first.
pub const ATTEMPTS: u8 = 2;

/// How long a VAXEE link needs after a failed query or a rate change.
pub const SETTLE_MS: u32 = 300;

/// How long a VAXEE mouse takes to leave its reply (the web driver's timing).
pub const REPLY_MS: u32 = 100;

/// How long to wait for a Pulsar reply.
pub const PULSAR_TIMEOUT_NS: u64 = 2_500_000_000;

/// The vendors whose protocol is spoken.
#[derive(Clone, Copy, Debug, PartialEq, Eq, Structural)]
pub enum Vendor {
    Pulsar,
    Vaxee,
}

/// What to do next with the mouse.
pub enum Action {
    /// Open the device of the state.
    Open,
    /// Send this frame and fetch the report that answers it.
    PulsarExchange([u8; 17]),
    /// Send this feature report and fetch the one that answers it.
    VaxeeExchange(Vec<u8>),
    /// Wait, in milliseconds.
    Sleep(u32),
    /// Nothing: the state holds the result.
    Finish,
}

/// The meaning of an `Action`.
pub enum ActionView {
    Open,
    PulsarExchange(Seq<u8>),
    VaxeeExchange(Seq<u8>),
    Sleep(u32),
    Finish,
}

impl View for Action {
    type V = ActionView;

    open spec fn view(&self) -> ActionView {
        match self {
            Action::Open => ActionView::Open,
            Action::PulsarExchange(req) => ActionView::PulsarExchange(req@),
            Action::VaxeeExchange(req) => ActionView::VaxeeExchange(req@),
            Action::Sleep(ms) => ActionView::Sleep(*ms),
            Action::Finish => ActionView::Finish,
        }
    }
}

/// What came of an action.
pub enum Event {
    Opened(bool),
    /// The reply to an exchange, `None` if there was none.
    Reply(Option<Vec<u8>>),
    Slept,
}

/// The meaning of an `Event`.
pub enum EventView {
    Opened(bool),
    Reply(Option<Seq<u8>>),
    Slept,
}

pub open spec fn bytes_option(v: Option<Vec<u8>>) -> Option<Seq<u8>> {
    match v {
        Some(v) => Some(v@),
        None => None,
    }
}

impl View for Event {
    type V = EventView;

    open spec fn view(&self) -> EventView {
        match self {
            Event::Opened(ok) => EventView::Opened(*ok),
            Event::Reply(reply) => EventView::Reply(bytes_option(*reply)),
            Event::Slept => EventView::Slept,
        }
    }
}

// ---------------------------------------------------------------------------
// Reading the battery
/// Where reading the battery stands. `left` counts the attempts left after the
/// one under way.
pub enum ReadState {
    Open { vendor: Vendor, info: HidDeviceInfo },
    /// The battery query doubles as the wake-up probe.
    PulsarPower { product: String, left: u8 },
    /// The link is asked about for the highest polling rate.
    PulsarInfo { status: BatteryStatus },
    /// The memory is asked for the current polling rate.
    PulsarRate { status: BatteryStatus, max_hz: u16 },
    VaxeeBattery { product: String, pid: u16, left: u8 },
    VaxeeCharging { product: String, pid: u16, left: u8, battery: Option<Vec<u8>> },
    VaxeePause { product: String, pid: u16, left: u8 },
    VaxeeRate { status: BatteryStatus, pid: u16 },
    VaxeeTracking { status: BatteryStatus, pid: u16, rate: Vec<u8> },
    Done(ReadResult),
}

/// The meaning of a `ReadState`.
pub enum ReadStateView {
    Open { vendor: Vendor, info: DeviceView },
    PulsarPower { product: Seq<char>, left: u8 },
    PulsarInfo { status: StatusView },
    PulsarRate { status: StatusView, max_hz: u16 },
    VaxeeBattery { product: Seq<char>, pid: u16, left: u8 },
    VaxeeCharging { product: Seq<char>, pid: u16, left: u8, battery: Option<Seq<u8>> },
    VaxeePause { product: Seq<char>, pid: u16, left: u8 },
    VaxeeRate { status: StatusView, pid: u16 },
    VaxeeTracking { status: StatusView, pid: u16, rate: Seq<u8> },
    Done(ReadView),
}

impl View for ReadState {
    type V = ReadStateView;

    open spec fn view(&self) -> ReadStateView {
        match self {
            ReadState::Open { vendor, info } => ReadStateView::Open { vendor: *vendor, info: info@ },
            ReadState::PulsarPower { product, left } => ReadStateView::PulsarPower {
                product: product@,
                left: *left,
            },
            ReadState::PulsarInfo { status } => ReadStateView::PulsarInfo { status: status@ },
            ReadState::PulsarRate { status, max_hz } => ReadStateView::PulsarRate {
                status: status@,
                max_hz: *max_hz,
            },
            ReadState::VaxeeBattery { product, pid, left } => ReadStateView::VaxeeBattery {
                product: product@,
                pid: *pid,
                left: *left,
            },
            ReadState::VaxeeCharging { product, pid, left, battery } =>
                ReadStateView::VaxeeCharging {
                product: product@,
                pid: *pid,
                left: *left,
                battery: bytes_option(*battery),
            },
            ReadState::VaxeePause { product, pid, left } => ReadStateView::VaxeePause {
                product: product@,
                pid: *pid,
                left: *left,
            },
            ReadState::VaxeeRate { status, pid } => ReadStateView::VaxeeRate {
                status: status@,
                pid: *pid,
            },
            ReadState::VaxeeTracking { status, pid, rate } => ReadStateView::VaxeeTracking {
                status: status@,
                pid: *pid,
                rate: rate@,
            },
            ReadState::Done(result) => ReadStateView::Done(result@),
        }
    }
}

/// The name of a vendor, as the tooltip shows it.
pub open spec fn vendor_name(vendor: Vendor) -> Seq<char> {
    match vendor {
        Vendor::Pulsar => "Pulsar"@,
        Vendor::Vaxee => "VAXEE"@,
    }
}

/// The mouse that is talked to, if one is connected: a Pulsar before a VAXEE.
pub open spec fn chosen(devices: Seq<HidDeviceInfo>) -> Option<(Vendor, DeviceView)> {
    let pulsar = speaker(devices, PULSAR_VID, PULSAR_USAGE_PAGE);
    let vaxee = speaker(devices, VAXEE_VID, VAXEE_USAGE_PAGE);
    if pulsar < devices.len() {
        Some((Vendor::Pulsar, devices[pulsar]@))
    } else if vaxee < devices.len() {
        Some((Vendor::Vaxee, devices[vaxee]@))
    } else {
        None
    }
}

/// A device under a name that tells its vendor.
pub open spec fn named_device(vendor: Vendor, info: DeviceView) -> DeviceView {
    DeviceView { product: named(vendor_name(vendor), info.product), ..info }
}

/// The reading's first state, with these devices connected.
pub open spec fn read_start(devices: Seq<HidDeviceInfo>) -> ReadStateView {
    match chosen(devices) {
        Some((vendor, info)) => ReadStateView::Open { vendor, info: named_device(vendor, info) },
        None => ReadStateView::Done(ReadView::NoDevice),
    }
}

/// Start reading the battery of whichever supported mouse is connected.
pub fn read_battery(devices: &[HidDeviceInfo]) -> (r: ReadState)
    ensures
        r@ == read_start(devices@),
{
    proof {
        crate::protocol::law_first_speaker(devices@, PULSAR_VID, PULSAR_USAGE_PAGE);
        crate::protocol::law_first_speaker(devices@, VAXEE_VID, VAXEE_USAGE_PAGE);
    }
    match find_pulsar(devices) {
        Some(info) => ReadState::Open { vendor: Vendor::Pulsar, info: with_vendor("Pulsar", info) },
        None => match find_vaxee(devices) {
            Some(info) => ReadState::Open {
                vendor: Vendor::Vaxee,
                info: with_vendor("VAXEE", info),
            },
            None => ReadState::Done(ReadResult::NoDevice),
        },
    }
}

/// The frame that asks a Pulsar mouse for its battery.
pub open spec fn power_frame() -> Seq<u8> {
    crate::protocol::frame(PULSAR_CMD_POWER, Seq::empty())
}

/// The frame that asks a Pulsar mouse for its link.
pub open spec fn info_frame() -> Seq<u8> {
    crate::protocol::frame(PULSAR_CMD_INFO, seq![0, 0, 0, 8, 0x11, 0x22, 0x33, 0x44])
}

/// The frame that asks a Pulsar mouse for its polling rate.
pub open spec fn rate_frame() -> Seq<u8> {
    crate::protocol::frame(
        PULSAR_CMD_MEM_GET,
        seq![
            0,
            crate::protocol::high_byte(PULSAR_ADDR_POLLING),
            crate::protocol::low_byte(PULSAR_ADDR_POLLING),
            2,
        ],
    )
}

/// What a state of reading asks for.
pub open spec fn read_action(state: ReadStateView) -> ActionView {
    match state {
        ReadStateView::Open { .. } => ActionView::Open,
        ReadStateView::PulsarPower { .. } => ActionView::PulsarExchange(power_frame()),
        ReadStateView::PulsarInfo { .. } => ActionView::PulsarExchange(info_frame()),
        ReadStateView::PulsarRate { .. } => ActionView::PulsarExchange(rate_frame()),
        ReadStateView::VaxeeBattery { .. } => ActionView::VaxeeExchange(
            read_request(VAXEE_CMD_BATTERY),
        ),
        ReadStateView::VaxeeCharging { .. } => ActionView::VaxeeExchange(
            read_request(VAXEE_CMD_CHARGING),
        ),
        ReadStateView::VaxeePause { .. } => ActionView::Sleep(SETTLE_MS),
        ReadStateView::VaxeeRate { .. } => ActionView::VaxeeExchange(read_request(VAXEE_CMD_RATE)),
        ReadStateView::VaxeeTracking { .. } => ActionView::VaxeeExchange(
            read_request(VAXEE_CMD_TRACKING),
        ),
        ReadStateView::Done(_) => ActionView::Finish,
    }
}

/// The result that a mouse was read, with or without its polling state.
pub open spec fn read_with(status: StatusView, polling: Option<PollingView>) -> ReadStateView {
    ReadStateView::Done(ReadView::Status(StatusView { polling, ..status }))
}

pub open spec fn no_response(product: Seq<char>) -> ReadStateView {
    ReadStateView::Done(ReadView::NoResponse(product))
}

/// What a reply to a VAXEE request is worth: an invalid one counts as none.
pub open spec fn heard(reply: Option<Seq<u8>>) -> Option<Seq<u8>> {
    match reply {
        Some(resp) => if is_valid(resp) {
            Some(resp)
        } else {
            None
        },
        None => None,
    }
}

/// The state after a Pulsar mouse's reply to the battery query.
pub open spec fn after_power(product: Seq<char>, left: u8, reply: Option<Seq<u8>>) -> ReadStateView {
    match reply {
        Some(resp) => match pulsar_status(resp, product) {
            Some(status) => ReadStateView::PulsarInfo { status },
            None => no_response(product),
        },
        None => if left > 0 {
            ReadStateView::PulsarPower { product, left: (left - 1) as u8 }
        } else {
            no_response(product)
        },
    }
}

/// The state after a Pulsar mouse's reply to the link query.
pub open spec fn after_info(status: StatusView, reply: Option<Seq<u8>>) -> ReadStateView {
    match reply {
        Some(resp) => match link_max_of(resp) {
            Some(max_hz) => ReadStateView::PulsarRate { status, max_hz },
            None => read_with(status, None),
        },
        None => read_with(status, None),
    }
}

/// The state after a Pulsar mouse's reply to the rate query.
pub open spec fn after_rate(
    status: StatusView,
    max_hz: u16,
    reply: Option<Seq<u8>>,
) -> ReadStateView {
    match reply {
        Some(resp) => match polling_of(resp) {
            Some(hz) => read_with(status, Some(PollingView { hz, max_hz, rates: PULSAR_RATES@ })),
            None => read_with(status, None),
        },
        None => read_with(status, None),
    }
}

/// The state after both replies of a VAXEE mouse's battery queries.
pub open spec fn after_charging(
    product: Seq<char>,
    pid: u16,
    left: u8,
    battery: Option<Seq<u8>>,
    charging: Option<Seq<u8>>,
) -> ReadStateView {
    match (heard(battery), heard(charging)) {
        (Some(bat), Some(chg)) => ReadStateView::VaxeeRate {
            status: vaxee_status(bat, chg, product),
            pid,
        },
        _ => ReadStateView::VaxeePause { product, pid, left },
    }
}

/// The state after an event. An event that was not asked for changes nothing.
pub open spec fn read_next(state: ReadStateView, event: EventView) -> ReadStateView {
    match (state, event) {
        (ReadStateView::Open { vendor, info }, EventView::Opened(ok)) => if !ok {
            no_response(info.product)
        } else if vendor == Vendor::Pulsar {
            ReadStateView::PulsarPower { product: info.product, left: (ATTEMPTS - 1) as u8 }
        } else {
            ReadStateView::VaxeeBattery {
                product: info.product,
                pid: info.pid,
                left: (ATTEMPTS - 1) as u8,
            }
        },
        (ReadStateView::PulsarPower { product, left }, EventView::Reply(reply)) => after_power(
            product,
            left,
            reply,
        ),
        (ReadStateView::PulsarInfo { status }, EventView::Reply(reply)) => after_info(status, reply),
        (ReadStateView::PulsarRate { status, max_hz }, EventView::Reply(reply)) => after_rate(
            status,
            max_hz,
            reply,
        ),
        (ReadStateView::VaxeeBattery { product, pid, left }, EventView::Reply(reply)) =>
            ReadStateView::VaxeeCharging { product, pid, left, battery: reply },
        (
            ReadStateView::VaxeeCharging { product, pid, left, battery },
            EventView::Reply(reply),
        ) => after_charging(product, pid, left, battery, reply),
        (ReadStateView::VaxeePause { product, pid, left }, EventView::Slept) => if left > 0 {
            ReadStateView::VaxeeBattery { product, pid, left: (left - 1) as u8 }
        } else {
            no_response(product)
        },
        (ReadStateView::VaxeeRate { status, pid }, EventView::Reply(reply)) => match heard(reply) {
            Some(rate) => ReadStateView::VaxeeTracking { status, pid, rate },
            None => read_with(status, None),
        },
        (ReadStateView::VaxeeTracking { status, pid, rate }, EventView::Reply(reply)) =>
            match heard(reply) {
            Some(tracking) => read_with(
                status,
                if is_valid(rate) {
                    vaxee_polling(rate, tracking, pid)
                } else {
                    None
                },
            ),
            None => read_with(status, None),
        },
        _ => state,
    }
}

fn listen(reply: Option<Vec<u8>>) -> (r: Option<Vec<u8>>)
    ensures
        bytes_option(r) == heard(bytes_option(reply)),
{
    match reply {
        Some(resp) => vaxee_valid(resp),
        None => None,
    }
}

fn finished(status: BatteryStatus, polling: Option<PollingInfo>) -> (r: ReadState)
    ensures
        r@ == read_with(status@, crate::protocol::polling_option(polling)),
{
    let mut status = status;
    status.polling = polling;
    ReadState::Done(ReadResult::Status(status))
}

impl ReadState {
    /// What to do next.
    pub fn action(&self) -> (r: Action)
        ensures
            r@ == read_action(self@),
    {
        match self {
            ReadState::Open { .. } => Action::Open,
            ReadState::PulsarPower { .. } => {
                let body: [u8; 0] = [];
                assert(body@ == Seq::<u8>::empty());
                Action::PulsarExchange(pulsar_frame(PULSAR_CMD_POWER, &body))
            },
            ReadState::PulsarInfo { .. } => Action::PulsarExchange(pulsar_info_request()),
            ReadState::PulsarRate { .. } => Action::PulsarExchange(
                pulsar_mem_get(PULSAR_ADDR_POLLING, 2),
            ),
            ReadState::VaxeeBattery { .. } => Action::VaxeeExchange(query(VAXEE_CMD_BATTERY)),
            ReadState::VaxeeCharging { .. } => Action::VaxeeExchange(query(VAXEE_CMD_CHARGING)),
            ReadState::VaxeePause { .. } => Action::Sleep(SETTLE_MS),
            ReadState::VaxeeRate { .. } => Action::VaxeeExchange(query(VAXEE_CMD_RATE)),
            ReadState::VaxeeTracking { .. } => Action::VaxeeExchange(query(VAXEE_CMD_TRACKING)),
            ReadState::Done(_) => Action::Finish,
        }
    }

    /// Take what came of it.
    pub fn step(self, event: Event) -> (r: ReadState)
        ensures
            r@ == read_next(self@, event@),
    {
        match (self, event) {
            (ReadState::Open { vendor, info }, Event::Opened(ok)) => if !ok {
                ReadState::Done(ReadResult::NoResponse(info.product))
            } else if vendor == Vendor::Pulsar {
                ReadState::PulsarPower { product: info.product, left: ATTEMPTS - 1 }
            } else {
                ReadState::VaxeeBattery {
                    product: info.product,
                    pid: info.pid,
                    left: ATTEMPTS - 1,
                }
            },
            (ReadState::PulsarPower { product, left }, Event::Reply(reply)) => match reply {
                Some(resp) => match parse_pulsar(resp.as_slice(), product.as_str()) {
                    Some(status) => ReadState::PulsarInfo { status },
                    None => ReadState::Done(ReadResult::NoResponse(product)),
                },
                None => if left > 0 {
                    ReadState::PulsarPower { product, left: left - 1 }
                } else {
                    ReadState::Done(ReadResult::NoResponse(product))
                },
            },
            (ReadState::PulsarInfo { status }, Event::Reply(reply)) => match reply {
                Some(resp) => match parse_pulsar_link_max(resp.as_slice()) {
                    Some(max_hz) => ReadState::PulsarRate { status, max_hz },
                    None => finished(status, None),
                },
                None => finished(status, None),
            },
            (ReadState::PulsarRate { status, max_hz }, Event::Reply(reply)) => match reply {
                Some(resp) => match parse_pulsar_polling(resp.as_slice()) {
                    Some(hz) => {
                        let polling = PollingInfo { hz, max_hz, rates: &PULSAR_RATES };
                        assert(polling@.rates == PULSAR_RATES@);
                        finished(status, Some(polling))
                    },
                    None => finished(status, None),
                },
                None => finished(status, None),
            },
            (ReadState::VaxeeBattery { product, pid, left }, Event::Reply(reply)) =>
                ReadState::VaxeeCharging { product, pid, left, battery: reply },
            (ReadState::VaxeeCharging { product, pid, left, battery }, Event::Reply(reply)) => {
                match (listen(battery), listen(reply)) {
                    (Some(bat), Some(chg)) => ReadState::VaxeeRate {
                        status: parse_vaxee(bat.as_slice(), chg.as_slice(), product.as_str()),
                        pid,
                    },
                    _ => ReadState::VaxeePause { product, pid, left },
                }
            },
            (ReadState::VaxeePause { product, pid, left }, Event::Slept) => if left > 0 {
                ReadState::VaxeeBattery { product, pid, left: left - 1 }
            } else {
                ReadState::Done(ReadResult::NoResponse(product))
            },
            (ReadState::VaxeeRate { status, pid }, Event::Reply(reply)) => match listen(reply) {
                Some(rate) => ReadState::VaxeeTracking { status, pid, rate },
                None => finished(status, None),
            },
            (ReadState::VaxeeTracking { status, pid, rate }, Event::Reply(reply)) => {
                match (vaxee_valid(rate), listen(reply)) {
                    (Some(rate), Some(tracking)) => finished(
                        status,
                        parse_vaxee_polling(rate.as_slice(), tracking.as_slice(), pid),
                    ),
                    _ => finished(status, None),
                }
            },
            (state, _) => state,
        }
    }
}

fn query(cmd: u8) -> (r: Vec<u8>)
    ensures
        r@ == read_request(cmd),
{
    let req = vaxee_request(cmd);
    vstd::slice::slice_to_vec(&req)
}

// ---------------------------------------------------------------------------
// Laws of reading
/// How many steps reading can still take.
pub open spec fn read_rank(state: ReadStateView) -> nat {
    match state {
        ReadStateView::Open { .. } => 1000,
        ReadStateView::PulsarPower { left, .. } => (3 + left) as nat,
        ReadStateView::PulsarInfo { .. } => 2,
        ReadStateView::PulsarRate { .. } => 1,
        ReadStateView::VaxeeBattery { left, .. } => (5 + 3 * left) as nat,
        ReadStateView::VaxeeCharging { left, .. } => (4 + 3 * left) as nat,
        ReadStateView::VaxeePause { left, .. } => (3 + 3 * left) as nat,
        ReadStateView::VaxeeRate { .. } => 2,
        ReadStateView::VaxeeTracking { .. } => 1,
        ReadStateView::Done(_) => 0,
    }
}

/// Whether an event is the outcome of what an action asks for.
pub open spec fn answers(event: EventView, action: ActionView) -> bool {
    match action {
        ActionView::Open => event is Opened,
        ActionView::PulsarExchange(_) | ActionView::VaxeeExchange(_) => event is Reply,
        ActionView::Sleep(_) => event is Slept,
        ActionView::Finish => false,
    }
}

/// Reading always makes progress: each outcome brings it nearer to its end, so no
/// mouse, however it answers, keeps it from ending.
pub proof fn law_reading_makes_progress(state: ReadStateView, event: EventView)
    requires
        answers(event, read_action(state)),
    ensures
        read_rank(read_next(state, event)) < read_rank(state),
{
}

/// Once there is a result, nothing changes it.
pub proof fn law_reading_is_final(result: ReadView, event: EventView)
    ensures
        read_next(ReadStateView::Done(result), event) == ReadStateView::Done(result),
{
}

/// The state that reading ends in, where `world` gives the outcome of what each
/// state asks for.
pub open spec fn read_run(
    state: ReadStateView,
    world: spec_fn(ReadStateView) -> EventView,
) -> ReadStateView
    decreases read_rank(state),
{
    let next = read_next(state, world(state));
    if read_rank(next) < read_rank(state) {
        read_run(next, world)
    } else {
        state
    }
}

/// Whether a world gives each state an outcome of what it asks for.
pub open spec fn is_world(world: spec_fn(ReadStateView) -> EventView) -> bool {
    forall|state: ReadStateView|
        !(state is Done) ==> answers(#[trigger] world(state), read_action(state))
}

/// With every world, reading ends with a result.
pub proof fn law_reading_ends(state: ReadStateView, world: spec_fn(ReadStateView) -> EventView)
    requires
        is_world(world),
    ensures
        read_run(state, world) is Done,
    decreases read_rank(state),
{
    if !(state is Done) {
        assert(answers(world(state), read_action(state)));
        law_reading_makes_progress(state, world(state));
        law_reading_ends(read_next(state, world(state)), world);
    }
}

/// The reply that a world gives to a state's request.
pub open spec fn reply_in(
    world: spec_fn(ReadStateView) -> EventView,
    state: ReadStateView,
) -> Option<Seq<u8>> {
    match world(state) {
        EventView::Reply(reply) => reply,
        _ => None,
    }
}

/// The polling state of a Pulsar mouse, by its replies to the link and the rate
/// query.
pub open spec fn pulsar_polling(info: Option<Seq<u8>>, mem: Option<Seq<u8>>) -> Option<PollingView> {
    if info is Some && link_max_of(info->0) is Some && mem is Some && polling_of(mem->0) is Some {
        Some(
            PollingView {
                hz: polling_of(mem->0)->0,
                max_hz: link_max_of(info->0)->0,
                rates: PULSAR_RATES@,
            },
        )
    } else {
        None
    }
}

/// What is read of a Pulsar mouse that opened, by its replies: to the first and
/// the second battery query, to the link query and to the rate query.
pub open spec fn pulsar_reading(
    product: Seq<char>,
    first: Option<Seq<u8>>,
    second: Option<Seq<u8>>,
    info: Option<Seq<u8>>,
    mem: Option<Seq<u8>>,
) -> ReadView {
    let power = if first is Some {
        first
    } else {
        second
    };
    if power is Some && pulsar_status(power->0, product) is Some {
        ReadView::Status(
            StatusView {
                polling: pulsar_polling(info, mem),
                ..pulsar_status(power->0, product)->0
            },
        )
    } else {
        ReadView::NoResponse(product)
    }
}

/// Reading a Pulsar mouse tries twice for a battery reply, takes the first one,
/// and adds the polling state where both further replies make sense. Without a
/// battery reply that makes sense, or where the device does not open, the mouse
/// is not responding.
pub proof fn law_pulsar_reading(info: DeviceView, world: spec_fn(ReadStateView) -> EventView)
    requires
        is_world(world),
    ensures
        ({
            let open = ReadStateView::Open { vendor: Vendor::Pulsar, info };
            let ask = |left: u8| ReadStateView::PulsarPower { product: info.product, left };
            let (first, second) = (reply_in(world, ask(1)), reply_in(world, ask(0)));
            let power = if first is Some {
                first
            } else {
                second
            };
            let link = ReadStateView::PulsarInfo {
                status: pulsar_status(power->0, info.product)->0,
            };
            let rate = ReadStateView::PulsarRate {
                status: pulsar_status(power->0, info.product)->0,
                max_hz: link_max_of(reply_in(world, link)->0)->0,
            };
            read_run(open, world) == ReadStateView::Done(
                if world(open) == EventView::Opened(true) {
                    pulsar_reading(
                        info.product,
                        first,
                        second,
                        reply_in(world, link),
                        reply_in(world, rate),
                    )
                } else {
                    ReadView::NoResponse(info.product)
                },
            )
        }),
{
    let open = ReadStateView::Open { vendor: Vendor::Pulsar, info };
    let ask1 = ReadStateView::PulsarPower { product: info.product, left: 1 };
    let ask0 = ReadStateView::PulsarPower { product: info.product, left: 0 };
    assert(answers(world(open), read_action(open)));
    assert(answers(world(ask1), read_action(ask1)));
    assert(answers(world(ask0), read_action(ask0)));
    let (first, second) = (reply_in(world, ask1), reply_in(world, ask0));
    let power = if first is Some {
        first
    } else {
        second
    };
    let status = pulsar_status(power->0, info.product)->0;
    let link = ReadStateView::PulsarInfo { status };
    let max_hz = link_max_of(reply_in(world, link)->0)->0;
    let rate = ReadStateView::PulsarRate { status, max_hz };
    assert(answers(world(link), read_action(link)));
    assert(answers(world(rate), read_action(rate)));
    reveal_with_fuel(read_run, 6);
    assert(StatusView { polling: None::<PollingView>, ..status } == status || pulsar_status(
        power->0,
        info.product,
    ) is None);
}

/// What is read of a VAXEE mouse that opened, by its replies: to the battery and
/// the charging query of either attempt, to the rate query and to the tracking
/// query.
pub open spec fn vaxee_reading(
    product: Seq<char>,
    pid: u16,
    first: (Option<Seq<u8>>, Option<Seq<u8>>),
    second: (Option<Seq<u8>>, Option<Seq<u8>>),
    rate: Option<Seq<u8>>,
    tracking: Option<Seq<u8>>,
) -> ReadView {
    let both = if heard(first.0) is Some && heard(first.1) is Some {
        first
    } else {
        second
    };
    if heard(both.0) is Some && heard(both.1) is Some {
        ReadView::Status(
            StatusView {
                polling: if heard(rate) is Some && heard(tracking) is Some {
                    vaxee_polling(rate->0, tracking->0, pid)
                } else {
                    None
                },
                ..vaxee_status(both.0->0, both.1->0, product)
            },
        )
    } else {
        ReadView::NoResponse(product)
    }
}

/// Reading a VAXEE mouse tries twice for a valid battery and charging reply, and
/// adds the polling state where the two further replies are valid and make sense.
/// Without both battery replies, or where the device does not open, the mouse is
/// not responding.
pub proof fn law_vaxee_reading(info: DeviceView, world: spec_fn(ReadStateView) -> EventView)
    requires
        is_world(world),
    ensures
        ({
            let (product, pid) = (info.product, info.pid);
            let open = ReadStateView::Open { vendor: Vendor::Vaxee, info };
            let bat = |left: u8|
                reply_in(world, ReadStateView::VaxeeBattery { product, pid, left });
            let chg = |left: u8|
                reply_in(
                    world,
                    ReadStateView::VaxeeCharging { product, pid, left, battery: bat(left) },
                );
            let left = if heard(bat(1)) is Some && heard(chg(1)) is Some {
                1u8
            } else {
                0u8
            };
            let status = vaxee_status(bat(left)->0, chg(left)->0, product);
            let rate = reply_in(world, ReadStateView::VaxeeRate { status, pid });
            let tracking = reply_in(
                world,
                ReadStateView::VaxeeTracking { status, pid, rate: rate->0 },
            );
            read_run(open, world) == ReadStateView::Done(
                if world(open) == EventView::Opened(true) {
                    vaxee_reading(
                        product,
                        pid,
                        (bat(1), chg(1)),
                        (bat(0), chg(0)),
                        rate,
                        tracking,
                    )
                } else {
                    ReadView::NoResponse(product)
                },
            )
        }),
{
    let (product, pid) = (info.product, info.pid);
    let open = ReadStateView::Open { vendor: Vendor::Vaxee, info };
    let bat1 = ReadStateView::VaxeeBattery { product, pid, left: 1 };
    let bat0 = ReadStateView::VaxeeBattery { product, pid, left: 0 };
    let (b1, b0) = (reply_in(world, bat1), reply_in(world, bat0));
    let chg1 = ReadStateView::VaxeeCharging { product, pid, left: 1, battery: b1 };
    let chg0 = ReadStateView::VaxeeCharging { product, pid, left: 0, battery: b0 };
    let (c1, c0) = (reply_in(world, chg1), reply_in(world, chg0));
    let pause1 = ReadStateView::VaxeePause { product, pid, left: 1 };
    let pause0 = ReadStateView::VaxeePause { product, pid, left: 0 };
    let (b, c) = if heard(b1) is Some && heard(c1) is Some {
        (b1, c1)
    } else {
        (b0, c0)
    };
    let status = vaxee_status(b->0, c->0, product);
    let rate = ReadStateView::VaxeeRate { status, pid };
    let tracking = ReadStateView::VaxeeTracking { status, pid, rate: reply_in(world, rate)->0 };
    assert(answers(world(open), read_action(open)));
    assert(answers(world(bat1), read_action(bat1)));
    assert(answers(world(bat0), read_action(bat0)));
    assert(answers(world(chg1), read_action(chg1)));
    assert(answers(world(chg0), read_action(chg0)));
    assert(answers(world(pause1), read_action(pause1)));
    assert(answers(world(pause0), read_action(pause0)));
    assert(answers(world(rate), read_action(rate)));
    assert(answers(world(tracking), read_action(tracking)));
    reveal_with_fuel(read_run, 10);
    assert(StatusView { polling: None::<PollingView>, ..status } == status);
}

// ---------------------------------------------------------------------------
// Setting the polling rate
/// Where setting the polling rate stands. `code` and `index` are what the vendors'
/// protocols have for the rate.
pub enum SetState {
    Open { vendor: Vendor, info: HidDeviceInfo, value: u8 },
    Pulsar { code: u8, left: u8 },
    Vaxee { index: u8, left: u8 },
    /// The link renegotiates after a rate change and ignores requests meanwhile,
    /// so it is given that time before the mouse is read again.
    VaxeeSettle,
    /// Whether the mouse has acknowledged the write. Only a hint: the mouse is read
    /// again afterwards.
    Done(bool),
}

/// The meaning of a `SetState`.
pub enum SetStateView {
    Open { vendor: Vendor, info: DeviceView, value: u8 },
    Pulsar { code: u8, left: u8 },
    Vaxee { index: u8, left: u8 },
    VaxeeSettle,
    Done(bool),
}

impl View for SetState {
    type V = SetStateView;

    open spec fn view(&self) -> SetStateView {
        match self {
            SetState::Open { vendor, info, value } => SetStateView::Open {
                vendor: *vendor,
                info: info@,
                value: *value,
            },
            SetState::Pulsar { code, left } => SetStateView::Pulsar { code: *code, left: *left },
            SetState::Vaxee { index, left } => SetStateView::Vaxee { index: *index, left: *left },
            SetState::VaxeeSettle => SetStateView::VaxeeSettle,
            SetState::Done(acked) => SetStateView::Done(*acked),
        }
    }
}

/// What a vendor's protocol has for a rate.
pub open spec fn rate_value(vendor: Vendor, hz: u16) -> Option<u8> {
    match vendor {
        Vendor::Pulsar => code_of(hz),
        Vendor::Vaxee => index_of(hz),
    }
}

/// The first state of setting a rate, with these devices connected. A rate that
/// the vendor has not is refused before the device is opened.
pub open spec fn set_start(devices: Seq<HidDeviceInfo>, hz: u16) -> SetStateView {
    match chosen(devices) {
        Some((vendor, info)) => match rate_value(vendor, hz) {
            Some(value) => SetStateView::Open { vendor, info, value },
            None => SetStateView::Done(false),
        },
        None => SetStateView::Done(false),
    }
}

/// Start writing `hz` to whichever supported mouse is connected (same priority as
/// `read_battery`).
pub fn set_polling(devices: &[HidDeviceInfo], hz: u16) -> (r: SetState)
    ensures
        r@ == set_start(devices@, hz),
{
    proof {
        crate::protocol::law_first_speaker(devices@, PULSAR_VID, PULSAR_USAGE_PAGE);
        crate::protocol::law_first_speaker(devices@, VAXEE_VID, VAXEE_USAGE_PAGE);
    }
    match find_pulsar(devices) {
        Some(info) => match pulsar_rate_code(hz) {
            Some(code) => SetState::Open {
                vendor: Vendor::Pulsar,
                info: info.clone(),
                value: code,
            },
            None => SetState::Done(false),
        },
        None => match find_vaxee(devices) {
            Some(info) => match vaxee_rate_index(hz) {
                Some(index) => SetState::Open {
                    vendor: Vendor::Vaxee,
                    info: info.clone(),
                    value: index,
                },
                None => SetState::Done(false),
            },
            None => SetState::Done(false),
        },
    }
}

/// What a state of setting asks for.
pub open spec fn set_action(state: SetStateView) -> ActionView {
    match state {
        SetStateView::Open { .. } => ActionView::Open,
        SetStateView::Pulsar { code, .. } => ActionView::PulsarExchange(set_rate_frame(code)),
        SetStateView::Vaxee { index, .. } => ActionView::VaxeeExchange(
            write_request(VAXEE_CMD_RATE, seq![index]),
        ),
        SetStateView::VaxeeSettle => ActionView::Sleep(SETTLE_MS),
        SetStateView::Done(_) => ActionView::Finish,
    }
}

/// Whether a Pulsar mouse's reply acknowledges the rate with a code.
pub open spec fn pulsar_acks(code: u8, reply: Option<Seq<u8>>) -> bool {
    reply is Some && echoes(set_rate_frame(code), reply->0)
}

/// Whether a VAXEE mouse's reply acknowledges a rate.
pub open spec fn vaxee_acks(reply: Option<Seq<u8>>) -> bool {
    heard(reply) is Some && acknowledges(reply->0, VAXEE_CMD_RATE)
}

/// The state after an event. An event that was not asked for changes nothing.
pub open spec fn set_next(state: SetStateView, event: EventView) -> SetStateView {
    match (state, event) {
        (SetStateView::Open { vendor, value, .. }, EventView::Opened(ok)) => if !ok {
            SetStateView::Done(false)
        } else if vendor == Vendor::Pulsar {
            SetStateView::Pulsar { code: value, left: (ATTEMPTS - 1) as u8 }
        } else {
            SetStateView::Vaxee { index: value, left: (ATTEMPTS - 1) as u8 }
        },
        (SetStateView::Pulsar { code, left }, EventView::Reply(reply)) => if pulsar_acks(
            code,
            reply,
        ) {
            SetStateView::Done(true)
        } else if left > 0 {
            SetStateView::Pulsar { code, left: (left - 1) as u8 }
        } else {
            SetStateView::Done(false)
        },
        (SetStateView::Vaxee { index, left }, EventView::Reply(reply)) => if vaxee_acks(reply) {
            SetStateView::VaxeeSettle
        } else if left > 0 {
            SetStateView::Vaxee { index, left: (left - 1) as u8 }
        } else {
            SetStateView::Done(false)
        },
        (SetStateView::VaxeeSettle, EventView::Slept) => SetStateView::Done(true),
        _ => state,
    }
}

fn set_request(code: u8) -> (r: [u8; 17])
    ensures
        r@ == set_rate_frame(code),
        r@[5] == 2,
{
    let data: [u8; 2] = [code, PULSAR_MAGIC.wrapping_sub(code)];
    assert(data@ == crate::protocol::rate_pair(code));
    pulsar_mem_set(PULSAR_ADDR_POLLING, &data)
}

impl SetState {
    /// What to do next.
    pub fn action(&self) -> (r: Action)
        ensures
            r@ == set_action(self@),
    {
        match self {
            SetState::Open { .. } => Action::Open,
            SetState::Pulsar { code, .. } => Action::PulsarExchange(set_request(*code)),
            SetState::Vaxee { index, .. } => {
                let data: [u8; 1] = [*index];
                assert(data@ == seq![*index]);
                Action::VaxeeExchange(vaxee_write_request(VAXEE_CMD_RATE, &data))
            },
            SetState::VaxeeSettle => Action::Sleep(SETTLE_MS),
            SetState::Done(_) => Action::Finish,
        }
    }

    /// Take what came of it.
    pub fn step(self, event: Event) -> (r: SetState)
        ensures
            r@ == set_next(self@, event@),
    {
        match (self, event) {
            (SetState::Open { vendor, value, .. }, Event::Opened(ok)) => if !ok {
                SetState::Done(false)
            } else if vendor == Vendor::Pulsar {
                SetState::Pulsar { code: value, left: ATTEMPTS - 1 }
            } else {
                SetState::Vaxee { index: value, left: ATTEMPTS - 1 }
            },
            (SetState::Pulsar { code, left }, Event::Reply(reply)) => {
                let acked = match &reply {
                    Some(resp) => pulsar_set_acked(&set_request(code), resp.as_slice()),
                    None => false,
                };
                if acked {
                    SetState::Done(true)
                } else if left > 0 {
                    SetState::Pulsar { code, left: left - 1 }
                } else {
                    SetState::Done(false)
                }
            },
            (SetState::Vaxee { index, left }, Event::Reply(reply)) => {
                let acked = match &listen(reply) {
                    Some(resp) => vaxee_write_acked(resp.as_slice(), VAXEE_CMD_RATE),
                    None => false,
                };
                if acked {
                    SetState::VaxeeSettle
                } else if left > 0 {
                    SetState::Vaxee { index, left: left - 1 }
                } else {
                    SetState::Done(false)
                }
            },
            (SetState::VaxeeSettle, Event::Slept) => SetState::Done(true),
            (state, _) => state,
        }
    }
}

// ---------------------------------------------------------------------------
// Laws of setting
/// How many steps setting a rate can still take.
pub open spec fn set_rank(state: SetStateView) -> nat {
    match state {
        SetStateView::Open { .. } => 1000,
        SetStateView::Pulsar { left, .. } => (2 + left) as nat,
        SetStateView::Vaxee { left, .. } => (2 + left) as nat,
        SetStateView::VaxeeSettle => 1,
        SetStateView::Done(_) => 0,
    }
}

/// Setting a rate always makes progress towards its end.
pub proof fn law_setting_makes_progress(state: SetStateView, event: EventView)
    requires
        answers(event, set_action(state)),
    ensures
        set_rank(set_next(state, event)) < set_rank(state),
{
}

/// The state that setting a rate ends in, where `world` gives the outcome of what
/// each state asks for.
pub open spec fn set_run(
    state: SetStateView,
    world: spec_fn(SetStateView) -> EventView,
) -> SetStateView
    decreases set_rank(state),
{
    let next = set_next(state, world(state));
    if set_rank(next) < set_rank(state) {
        set_run(next, world)
    } else {
        state
    }
}

/// Whether a world gives each state an outcome of what it asks for.
pub open spec fn is_set_world(world: spec_fn(SetStateView) -> EventView) -> bool {
    forall|state: SetStateView|
        !(state is Done) ==> answers(#[trigger] world(state), set_action(state))
}

/// A rate is set just where the device opens and the first or the second reply
/// acknowledges it.
pub proof fn law_set_is_acknowledged(
    vendor: Vendor,
    info: DeviceView,
    value: u8,
    world: spec_fn(SetStateView) -> EventView,
)
    requires
        is_set_world(world),
    ensures
        ({
            let open = SetStateView::Open { vendor, info, value };
            let acked = |left: u8|
                if vendor == Vendor::Pulsar {
                    world(SetStateView::Pulsar { code: value, left }) matches EventView::Reply(
                        reply,
                    ) && pulsar_acks(value, reply)
                } else {
                    world(SetStateView::Vaxee { index: value, left }) matches EventView::Reply(
                        reply,
                    ) && vaxee_acks(reply)
                };
            set_run(open, world) == SetStateView::Done(
                world(open) == EventView::Opened(true) && (acked(1) || acked(0)),
            )
        }),
{
    let open = SetStateView::Open { vendor, info, value };
    let (p1, p0) = (
        SetStateView::Pulsar { code: value, left: 1 },
        SetStateView::Pulsar { code: value, left: 0 },
    );
    let (v1, v0) = (
        SetStateView::Vaxee { index: value, left: 1 },
        SetStateView::Vaxee { index: value, left: 0 },
    );
    let settle = SetStateView::VaxeeSettle;
    assert(answers(world(open), set_action(open)));
    assert(answers(world(p1), set_action(p1)));
    assert(answers(world(p0), set_action(p0)));
    assert(answers(world(v1), set_action(v1)));
    assert(answers(world(v0), set_action(v0)));
    assert(answers(world(settle), set_action(settle)));
    reveal_with_fuel(set_run, 6);
}

/// A rate is written to the mouse whose battery is read.
pub proof fn law_set_and_read_choose_alike(devices: Seq<HidDeviceInfo>, hz: u16)
    ensures
        set_start(devices, hz) matches SetStateView::Open { vendor, info, value } ==> {
            &&& read_start(devices) == (ReadStateView::Open {
                vendor,
                info: named_device(vendor, info),
            })
            &&& rate_value(vendor, hz) == Some(value)
        },
        read_start(devices) is Done ==> set_start(devices, hz) == SetStateView::Done(false),
{
}

/// A connected Pulsar mouse is talked to even where a VAXEE one is connected too.
pub proof fn law_pulsar_comes_first(devices: Seq<HidDeviceInfo>, i: int)
    requires
        0 <= i < devices.len(),
        crate::protocol::speaks(devices[i]@, PULSAR_VID, PULSAR_USAGE_PAGE),
    ensures
        chosen(devices) matches Some((vendor, info)) && vendor == Vendor::Pulsar && info.vid
            == PULSAR_VID,
{
    crate::protocol::law_first_speaker(devices, PULSAR_VID, PULSAR_USAGE_PAGE);
}

// ---------------------------------------------------------------------------
// A Pulsar exchange
/// Where an exchange with a Pulsar mouse stands. Other input reports may share
/// the collection, or a late reply to a previous attempt may land first, so it
/// goes on reading until the deadline.
pub enum PulsarXact {
    /// Write the frame.
    Write { cmd: u8 },
    /// Look at the clock: how long ago was the frame written?
    Clock { cmd: u8 },
    /// Read one report, within this many milliseconds.
    Read { cmd: u8, timeout_ms: u32 },
    /// The reply, if there was one.
    Done(Option<Vec<u8>>),
}

/// The meaning of a `PulsarXact`.
pub enum PulsarXactView {
    Write { cmd: u8 },
    Clock { cmd: u8 },
    Read { cmd: u8, timeout_ms: u32 },
    Done(Option<Seq<u8>>),
}

impl View for PulsarXact {
    type V = PulsarXactView;

    open spec fn view(&self) -> PulsarXactView {
        match self {
            PulsarXact::Write { cmd } => PulsarXactView::Write { cmd: *cmd },
            PulsarXact::Clock { cmd } => PulsarXactView::Clock { cmd: *cmd },
            PulsarXact::Read { cmd, timeout_ms } => PulsarXactView::Read {
                cmd: *cmd,
                timeout_ms: *timeout_ms,
            },
            PulsarXact::Done(reply) => PulsarXactView::Done(bytes_option(*reply)),
        }
    }
}

/// Whether a report is the reply to a command: it echoes the command byte.
pub open spec fn is_reply(report: Seq<u8>, cmd: u8) -> bool {
    report.len() >= 2 && report[0] == PULSAR_REPORT_ID && report[1] == cmd
}

/// The state after writing the frame.
pub open spec fn after_written(state: PulsarXactView, ok: bool) -> PulsarXactView {
    match state {
        PulsarXactView::Write { cmd } => if ok {
            PulsarXactView::Clock { cmd }
        } else {
            PulsarXactView::Done(None)
        },
        _ => state,
    }
}

/// The state after looking at the clock: reading for what is left of the time.
pub open spec fn after_clock(cmd: u8, elapsed_ns: u64) -> PulsarXactView {
    if elapsed_ns >= PULSAR_TIMEOUT_NS {
        PulsarXactView::Done(None)
    } else {
        PulsarXactView::Read {
            cmd,
            timeout_ms: ((PULSAR_TIMEOUT_NS - elapsed_ns) / 1_000_000) as u32,
        }
    }
}

/// The state after reading a report, `None` where none came in time.
pub open spec fn after_report(cmd: u8, report: Option<Seq<u8>>) -> PulsarXactView {
    match report {
        Some(report) => if is_reply(report, cmd) {
            PulsarXactView::Done(Some(report))
        } else {
            PulsarXactView::Clock { cmd }
        },
        None => PulsarXactView::Done(None),
    }
}

/// Start sending one frame and waiting for the reply that echoes its command byte.
pub fn pulsar_xact(req: &[u8; 17]) -> (r: PulsarXact)
    ensures
        r@ == (PulsarXactView::Write { cmd: req@[1] }),
{
    PulsarXact::Write { cmd: req[1] }
}

impl PulsarXact {
    /// Take the outcome of writing; other states are left as they are.
    pub fn written(self, ok: bool) -> (r: PulsarXact)
        ensures
            r@ == after_written(self@, ok),
    {
        match self {
            PulsarXact::Write { cmd } => if ok {
                PulsarXact::Clock { cmd }
            } else {
                PulsarXact::Done(None)
            },
            other => other,
        }
    }

    /// Take the time since the frame was written; other states are left as they
    /// are.
    pub fn clocked(self, elapsed_ns: u64) -> (r: PulsarXact)
        ensures
            r@ == (match self@ {
                PulsarXactView::Clock { cmd } => after_clock(cmd, elapsed_ns),
                _ => self@,
            }),
    {
        match self {
            PulsarXact::Clock { cmd } => if elapsed_ns >= PULSAR_TIMEOUT_NS {
                PulsarXact::Done(None)
            } else {
                PulsarXact::Read {
                    cmd,
                    timeout_ms: ((PULSAR_TIMEOUT_NS - elapsed_ns) / 1_000_000) as u32,
                }
            },
            other => other,
        }
    }

    /// Take the report that was read; other states are left as they are.
    pub fn reported(self, report: Option<Vec<u8>>) -> (r: PulsarXact)
        ensures
            r@ == (match self@ {
                PulsarXactView::Read { cmd, .. } => after_report(cmd, bytes_option(report)),
                _ => self@,
            }),
    {
        match self {
            PulsarXact::Read { cmd, .. } => match report {
                Some(report) => if report.len() >= 2 && report[0] == PULSAR_REPORT_ID && report[1]
                    == cmd {
                    PulsarXact::Done(Some(report))
                } else {
                    PulsarXact::Clock { cmd }
                },
                None => PulsarXact::Done(None),
            },
            other => other,
        }
    }
}

/// No read outlasts the deadline.
pub proof fn law_reads_end_by_the_deadline(cmd: u8, elapsed_ns: u64)
    ensures
        after_clock(cmd, elapsed_ns) matches PulsarXactView::Read { timeout_ms, .. } ==> elapsed_ns
            + timeout_ms * 1_000_000 <= PULSAR_TIMEOUT_NS,
{
}

/// What an exchange ends with once the frame is written, where the clock shows
/// `times` and reading gives `reports`; `None` also where they run out.
pub open spec fn exchange_run(
    cmd: u8,
    times: Seq<u64>,
    reports: Seq<Option<Seq<u8>>>,
) -> Option<Seq<u8>>
    decreases times.len(),
{
    if times.len() == 0 || reports.len() == 0 {
        None
    } else {
        match after_clock(cmd, times[0]) {
            PulsarXactView::Read { .. } => match after_report(cmd, reports[0]) {
                PulsarXactView::Done(reply) => reply,
                _ => exchange_run(cmd, times.drop_first(), reports.drop_first()),
            },
            _ => None,
        }
    }
}

/// An exchange skips the reports that do not answer the command and gives the
/// first one that does, if it comes before the deadline.
pub proof fn law_first_reply_is_returned(
    cmd: u8,
    times: Seq<u64>,
    reports: Seq<Option<Seq<u8>>>,
    k: int,
)
    requires
        0 <= k < times.len(),
        k < reports.len(),
        forall|j: int| 0 <= j <= k ==> #[trigger] times[j] < PULSAR_TIMEOUT_NS,
        forall|j: int|
            0 <= j < k ==> #[trigger] reports[j] is Some && !is_reply(reports[j]->0, cmd),
        reports[k] is Some,
        is_reply(reports[k]->0, cmd),
    ensures
        exchange_run(cmd, times, reports) == reports[k],
    decreases k,
{
    assert(times[0] < PULSAR_TIMEOUT_NS);
    if k > 0 {
        assert(reports[0] is Some && !is_reply(reports[0]->0, cmd));
        let (later, rest) = (times.drop_first(), reports.drop_first());
        assert forall|j: int| 0 <= j <= k - 1 implies #[trigger] later[j] < PULSAR_TIMEOUT_NS by {
            assert(times[j + 1] < PULSAR_TIMEOUT_NS);
        }
        assert forall|j: int| 0 <= j < k - 1 implies #[trigger] rest[j] is Some && !is_reply(
            rest[j]->0,
            cmd,
        ) by {
            assert(reports[j + 1] is Some);
        }
        law_first_reply_is_returned(cmd, later, rest, k - 1);
    }
}

/// Whatever an exchange gives echoes the command, and it was read before the
/// deadline.
pub proof fn law_reply_echoes_the_command(cmd: u8, times: Seq<u64>, reports: Seq<Option<Seq<u8>>>)
    ensures
        exchange_run(cmd, times, reports) matches Some(reply) ==> is_reply(reply, cmd) && exists|
            k: int,
        |
            0 <= k < times.len() && k < reports.len() && #[trigger] reports[k] == Some(reply)
                && times[k] < PULSAR_TIMEOUT_NS,
    decreases times.len(),
{
    if times.len() > 0 && reports.len() > 0 && exchange_run(cmd, times, reports) is Some {
        let reply = exchange_run(cmd, times, reports)->0;
        if after_report(cmd, reports[0]) is Done {
            assert(reports[0] == Some(reply) && times[0] < PULSAR_TIMEOUT_NS);
        } else {
            let (later, rest) = (times.drop_first(), reports.drop_first());
            law_reply_echoes_the_command(cmd, later, rest);
            let k = choose|k: int|
                0 <= k < later.len() && k < rest.len() && #[trigger] rest[k] == Some(reply)
                    && later[k] < PULSAR_TIMEOUT_NS;
            assert(reports[k + 1] == Some(reply) && times[k + 1] < PULSAR_TIMEOUT_NS);
        }
    }
}

// ---------------------------------------------------------------------------
// A VAXEE exchange
/// Where an exchange with a VAXEE mouse stands.
pub enum VaxeeXact {
    /// Send the feature report.
    Send,
    /// Wait for the mouse to leave its reply in the feature buffer, in
    /// milliseconds.
    Wait(u32),
    /// Fetch the feature report with this ID.
    Fetch(u8),
    /// The reply, if there was a valid one.
    Done(Option<Vec<u8>>),
}

/// The meaning of a `VaxeeXact`.
pub enum VaxeeXactView {
    Send,
    Wait(u32),
    Fetch(u8),
    Done(Option<Seq<u8>>),
}

impl View for VaxeeXact {
    type V = VaxeeXactView;

    open spec fn view(&self) -> VaxeeXactView {
        match self {
            VaxeeXact::Send => VaxeeXactView::Send,
            VaxeeXact::Wait(ms) => VaxeeXactView::Wait(*ms),
            VaxeeXact::Fetch(id) => VaxeeXactView::Fetch(*id),
            VaxeeXact::Done(reply) => VaxeeXactView::Done(bytes_option(*reply)),
        }
    }
}

/// The state after sending the request.
pub open spec fn after_sent(state: VaxeeXactView, ok: bool) -> VaxeeXactView {
    match state {
        VaxeeXactView::Send => if ok {
            VaxeeXactView::Wait(REPLY_MS)
        } else {
            VaxeeXactView::Done(None)
        },
        _ => state,
    }
}

/// The state after the wait.
pub open spec fn after_wait(state: VaxeeXactView) -> VaxeeXactView {
    match state {
        VaxeeXactView::Wait(_) => VaxeeXactView::Fetch(crate::protocol::VAXEE_REPORT_ID),
        _ => state,
    }
}

/// The state after fetching the report.
pub open spec fn after_fetched(state: VaxeeXactView, report: Option<Seq<u8>>) -> VaxeeXactView {
    match state {
        VaxeeXactView::Fetch(_) => VaxeeXactView::Done(heard(report)),
        _ => state,
    }
}

/// Start sending one feature request and fetching the reply.
pub fn vaxee_xact() -> (r: VaxeeXact)
    ensures
        r@ == VaxeeXactView::Send,
{
    VaxeeXact::Send
}

impl VaxeeXact {
    /// Take the outcome of sending; other states are left as they are.
    pub fn sent(self, ok: bool) -> (r: VaxeeXact)
        ensures
            r@ == after_sent(self@, ok),
    {
        match self {
            VaxeeXact::Send => if ok {
                VaxeeXact::Wait(REPLY_MS)
            } else {
                VaxeeXact::Done(None)
            },
            other => other,
        }
    }

    /// Note that the wait is over; other states are left as they are.
    pub fn waited(self) -> (r: VaxeeXact)
        ensures
            r@ == after_wait(self@),
    {
        match self {
            VaxeeXact::Wait(_) => VaxeeXact::Fetch(crate::protocol::VAXEE_REPORT_ID),
            other => other,
        }
    }

    /// Take the report that was fetched; other states are left as they are.
    pub fn fetched(self, report: Option<Vec<u8>>) -> (r: VaxeeXact)
        ensures
            r@ == after_fetched(self@, bytes_option(report)),
    {
        match self {
            VaxeeXact::Fetch(_) => VaxeeXact::Done(listen(report)),
            other => other,
        }
    }
}

// ---------------------------------------------------------------------------
// What is opened, asked and understood
/// Whether a collection is the one to talk to a vendor's mouse through: vendor
/// 0x3710 on usage page 0xff02 for Pulsar, vendor 0x3057 on usage page 0xff05 for
/// VAXEE.
pub open spec fn is_collection_of(d: DeviceView, vendor: Vendor) -> bool {
    match vendor {
        Vendor::Pulsar => d.vid == 0x3710 && d.usage_page == 0xff02,
        Vendor::Vaxee => d.vid == 0x3057 && d.usage_page == 0xff05,
    }
}

proof fn lemma_chosen(devices: Seq<HidDeviceInfo>)
    ensures
        match chosen(devices) {
            Some((vendor, info)) => {
                &&& exists|i: int|
                    0 <= i < devices.len() && (#[trigger] devices[i])@ == info && is_collection_of(
                        devices[i]@,
                        vendor,
                    ) && (forall|j: int|
                        0 <= j < i ==> !is_collection_of((#[trigger] devices[j])@, vendor))
                &&& vendor == Vendor::Vaxee ==> forall|j: int|
                    0 <= j < devices.len() ==> !is_collection_of(
                        (#[trigger] devices[j])@,
                        Vendor::Pulsar,
                    )
            },
            None => forall|j: int|
                0 <= j < devices.len() ==> !is_collection_of(
                    (#[trigger] devices[j])@,
                    Vendor::Pulsar,
                ) && !is_collection_of(devices[j]@, Vendor::Vaxee),
        },
{
    crate::protocol::law_first_speaker(devices, PULSAR_VID, PULSAR_USAGE_PAGE);
    crate::protocol::law_first_speaker(devices, VAXEE_VID, VAXEE_USAGE_PAGE);
    let pulsar = speaker(devices, PULSAR_VID, PULSAR_USAGE_PAGE);
    let vaxee = speaker(devices, VAXEE_VID, VAXEE_USAGE_PAGE);
    assert forall|j: int| 0 <= j < devices.len() implies is_collection_of(
        (#[trigger] devices[j])@,
        Vendor::Pulsar,
    ) == crate::protocol::speaks(devices[j]@, PULSAR_VID, PULSAR_USAGE_PAGE) by {}
    assert forall|j: int| 0 <= j < devices.len() implies is_collection_of(
        (#[trigger] devices[j])@,
        Vendor::Vaxee,
    ) == crate::protocol::speaks(devices[j]@, VAXEE_VID, VAXEE_USAGE_PAGE) by {}
    if pulsar < devices.len() {
        assert(is_collection_of(devices[pulsar]@, Vendor::Pulsar));
    } else if vaxee < devices.len() {
        assert(is_collection_of(devices[vaxee]@, Vendor::Vaxee));
    }
}

/// Reading opens a connected collection that speaks the vendor's protocol, the
/// first one that does, under a name that tells the vendor; a VAXEE one only where
/// no Pulsar one is connected. Without either there is no device.
pub proof fn law_reading_opens_the_mouse(devices: Seq<HidDeviceInfo>)
    ensures
        match read_start(devices) {
            ReadStateView::Open { vendor, info } => {
                &&& exists|i: int|
                    0 <= i < devices.len() && info == (DeviceView {
                        product: named(
                            if vendor == Vendor::Pulsar {
                                "Pulsar"@
                            } else {
                                "VAXEE"@
                            },
                            (#[trigger] devices[i])@.product,
                        ),
                        ..devices[i]@
                    }) && is_collection_of(devices[i]@, vendor) && (forall|j: int|
                        0 <= j < i ==> !is_collection_of((#[trigger] devices[j])@, vendor))
                &&& vendor == Vendor::Vaxee ==> forall|j: int|
                    0 <= j < devices.len() ==> !is_collection_of(
                        (#[trigger] devices[j])@,
                        Vendor::Pulsar,
                    )
            },
            ReadStateView::Done(result) => {
                &&& result == ReadView::NoDevice
                &&& forall|j: int|
                    0 <= j < devices.len() ==> !is_collection_of(
                        (#[trigger] devices[j])@,
                        Vendor::Pulsar,
                    ) && !is_collection_of(devices[j]@, Vendor::Vaxee)
            },
            _ => false,
        },
{
    lemma_chosen(devices);
    if chosen(devices) is Some {
        let (vendor, info) = chosen(devices)->0;
        let i = choose|i: int|
            0 <= i < devices.len() && (#[trigger] devices[i])@ == info && is_collection_of(
                devices[i]@,
                vendor,
            ) && (forall|j: int|
                0 <= j < i ==> !is_collection_of((#[trigger] devices[j])@, vendor));
        assert(is_collection_of(devices[i]@, vendor));
    }
}

/// Setting a rate opens the same collection, with what the vendor's protocol has
/// for the rate: for Pulsar the period in milliseconds up to 1 kHz and steps of 125
/// Hz above, for VAXEE the rate's place in its list. A rate that the vendor has
/// not, or no mouse, is not acknowledged.
pub proof fn law_setting_opens_the_mouse(devices: Seq<HidDeviceInfo>, hz: u16)
    ensures
        match set_start(devices, hz) {
            SetStateView::Open { vendor, info, value } => {
                &&& exists|i: int|
                    0 <= i < devices.len() && (#[trigger] devices[i])@ == info && is_collection_of(
                        devices[i]@,
                        vendor,
                    ) && (forall|j: int|
                        0 <= j < i ==> !is_collection_of((#[trigger] devices[j])@, vendor))
                &&& vendor == Vendor::Vaxee ==> forall|j: int|
                    0 <= j < devices.len() ==> !is_collection_of(
                        (#[trigger] devices[j])@,
                        Vendor::Pulsar,
                    )
                &&& vendor == Vendor::Pulsar ==> PULSAR_RATES@.contains(hz) && (if hz <= 1000 {
                    value * hz == 1000
                } else {
                    value * 125 == hz
                })
                &&& vendor == Vendor::Vaxee ==> 1 <= value <= 5 && VAXEE_RATES@[value - 1] == hz
            },
            SetStateView::Done(acked) => {
                &&& !acked
                &&& (forall|j: int|
                    0 <= j < devices.len() && is_collection_of(
                        (#[trigger] devices[j])@,
                        Vendor::Pulsar,
                    ) ==> !PULSAR_RATES@.contains(hz))
                &&& (exists|j: int|
                    0 <= j < devices.len() && is_collection_of(
                        (#[trigger] devices[j])@,
                        Vendor::Pulsar,
                    )) || (forall|j: int|
                    0 <= j < devices.len() && is_collection_of(
                        (#[trigger] devices[j])@,
                        Vendor::Vaxee,
                    ) ==> !VAXEE_RATES@.contains(hz))
            },
            _ => false,
        },
{
    lemma_chosen(devices);
    if code_of(hz) is Some {
        crate::protocol::law_code_is_the_period(hz, code_of(hz)->0);
        crate::protocol::law_pulsar_rates_round_trip(hz, code_of(hz)->0);
    } else {
        crate::protocol::law_pulsar_rates_round_trip(hz, 0);
    }
    if index_of(hz) is Some {
        crate::protocol::law_vaxee_rates_round_trip(hz, index_of(hz)->0);
    } else {
        crate::protocol::law_vaxee_rates_round_trip(hz, 0);
    }
    if chosen(devices) is Some {
        let (vendor, info) = chosen(devices)->0;
        let i = choose|i: int|
            0 <= i < devices.len() && (#[trigger] devices[i])@ == info && is_collection_of(
                devices[i]@,
                vendor,
            ) && (forall|j: int|
                0 <= j < i ==> !is_collection_of((#[trigger] devices[j])@, vendor));
        assert(is_collection_of(devices[i]@, vendor));
    }
}

/// What each state of reading sends: the battery query `08 04`, the link query
/// `08 01 00 00 00 08 11 22 33 44`, the read of two bytes at address 0, `08 08 00 00
/// 00 02`, and the VAXEE reads of battery, charging, rate and tracking. After a
/// failed VAXEE attempt there is a pause of 300 ms.
pub proof fn law_what_reading_sends(state: ReadStateView)
    ensures
        match state {
            ReadStateView::Open { .. } => read_action(state) == ActionView::Open,
            ReadStateView::PulsarPower { .. } => read_action(state) matches
                ActionView::PulsarExchange(f) && f.len() == 17 && f[0] == 0x08 && f[1] == 0x04
                && (forall|i: int| 2 <= i < 16 ==> #[trigger] f[i] == 0)
                && crate::protocol::byte_sum(f) % 256 == 0x55,
            ReadStateView::PulsarInfo { .. } => read_action(state) matches
                ActionView::PulsarExchange(f) && f.len() == 17 && f.take(10) == seq![
                0x08u8,
                0x01,
                0,
                0,
                0,
                8,
                0x11,
                0x22,
                0x33,
                0x44,
            ] && (forall|i: int| 10 <= i < 16 ==> #[trigger] f[i] == 0)
                && crate::protocol::byte_sum(f) % 256 == 0x55,
            ReadStateView::PulsarRate { .. } => read_action(state) matches
                ActionView::PulsarExchange(f) && f.len() == 17 && f.take(6) == seq![
                0x08u8,
                0x08,
                0,
                0,
                0,
                2,
            ] && (forall|i: int| 6 <= i < 16 ==> #[trigger] f[i] == 0)
                && crate::protocol::byte_sum(f) % 256 == 0x55,
            ReadStateView::VaxeeBattery { .. } => read_action(state) == ActionView::VaxeeExchange(
                seq![0x0eu8, 0xa5, 0x0b, 1, 1],
            ),
            ReadStateView::VaxeeCharging { .. } => read_action(state) == ActionView::VaxeeExchange(
                seq![0x0eu8, 0xa5, 0x10, 1, 1],
            ),
            ReadStateView::VaxeePause { .. } => read_action(state) == ActionView::Sleep(300),
            ReadStateView::VaxeeRate { .. } => read_action(state) == ActionView::VaxeeExchange(
                seq![0x0eu8, 0xa5, 0x07, 1, 1],
            ),
            ReadStateView::VaxeeTracking { .. } => read_action(state) == ActionView::VaxeeExchange(
                seq![0x0eu8, 0xa5, 0x08, 1, 1],
            ),
            ReadStateView::Done(_) => read_action(state) == ActionView::Finish,
        },
{
    let nonce = seq![0u8, 0, 0, 8, 0x11, 0x22, 0x33, 0x44];
    crate::protocol::law_frame_sums_to_magic(PULSAR_CMD_POWER, Seq::empty());
    crate::protocol::law_frame_sums_to_magic(PULSAR_CMD_INFO, nonce);
    crate::protocol::law_frame_sums_to_magic(PULSAR_CMD_MEM_GET, seq![0u8, 0, 0, 2]);
    assert(rate_frame() == crate::protocol::frame(PULSAR_CMD_MEM_GET, seq![0u8, 0, 0, 2]));
    assert(info_frame().take(10) == seq![0x08u8, 0x01, 0, 0, 0, 8, 0x11, 0x22, 0x33, 0x44]);
    assert(rate_frame().take(6) == seq![0x08u8, 0x08, 0, 0, 0, 2]);
    assert(read_request(VAXEE_CMD_BATTERY) == seq![0x0eu8, 0xa5, 0x0b, 1, 1]);
    assert(read_request(VAXEE_CMD_CHARGING) == seq![0x0eu8, 0xa5, 0x10, 1, 1]);
    assert(read_request(VAXEE_CMD_RATE) == seq![0x0eu8, 0xa5, 0x07, 1, 1]);
    assert(read_request(VAXEE_CMD_TRACKING) == seq![0x0eu8, 0xa5, 0x08, 1, 1]);
}

/// What each state of setting sends: `08 07 00 00 00 02 <code> <0x55 - code>` to a
/// Pulsar mouse, `0E A5 07 02 01 <index>` to a VAXEE one, which then gets 300 ms.
pub proof fn law_what_setting_sends(state: SetStateView)
    ensures
        match state {
            SetStateView::Open { .. } => set_action(state) == ActionView::Open,
            SetStateView::Pulsar { code, .. } => set_action(state) matches
                ActionView::PulsarExchange(f) && f.len() == 17 && f.take(7) == seq![
                0x08u8,
                0x07,
                0,
                0,
                0,
                2,
                code,
            ] && (f[6] + f[7]) % 256 == 0x55 && (forall|i: int|
                8 <= i < 16 ==> #[trigger] f[i] == 0) && crate::protocol::byte_sum(f) % 256 == 0x55,
            SetStateView::Vaxee { index, .. } => set_action(state) == ActionView::VaxeeExchange(
                seq![0x0eu8, 0xa5, 0x07, 2, 1, index],
            ),
            SetStateView::VaxeeSettle => set_action(state) == ActionView::Sleep(300),
            SetStateView::Done(_) => set_action(state) == ActionView::Finish,
        },
{
    match state {
        SetStateView::Pulsar { code, .. } => {
            crate::protocol::law_set_rate_frame(code);
            assert(set_rate_frame(code).take(7) == seq![0x08u8, 0x07, 0, 0, 0, 2, code]);
            crate::protocol::law_frame_sums_to_magic(
                crate::protocol::PULSAR_CMD_MEM_SET,
                seq![
                    0,
                    crate::protocol::high_byte(PULSAR_ADDR_POLLING),
                    crate::protocol::low_byte(PULSAR_ADDR_POLLING),
                    2,
                ] + crate::protocol::rate_pair(code),
            );
        },
        SetStateView::Vaxee { index, .. } => {
            assert(write_request(VAXEE_CMD_RATE, seq![index]) == seq![
                0x0eu8,
                0xa5,
                0x07,
                2,
                1,
                index,
            ]);
        },
        _ => {},
    }
}

/// What a Pulsar mouse's battery reply `r` of the right kind tells.
pub open spec fn power_status(r: Seq<u8>, product: Seq<char>) -> StatusView {
    StatusView {
        percent: if r[6] <= 100 {
            r[6]
        } else {
            100
        },
        charging: r[7] == 1,
        voltage_mv: Some((256 * r[8] + r[9]) as u16),
        product,
        polling: None,
    }
}

/// Reading a Pulsar mouse, byte by byte. The first battery reply, or else the
/// second, decides: where it is `08 04` and ten bytes or more, the reading holds
/// what it tells, whatever the further replies; else the mouse is not responding,
/// as where it does not open. The polling state is there just where the link and
/// the rate reply make sense.
pub proof fn law_pulsar_bytes(info: DeviceView, world: spec_fn(ReadStateView) -> EventView)
    requires
        is_world(world),
    ensures
        ({
            let product = info.product;
            let open = ReadStateView::Open { vendor: Vendor::Pulsar, info };
            let first = reply_in(world, ReadStateView::PulsarPower { product, left: 1 });
            let second = reply_in(world, ReadStateView::PulsarPower { product, left: 0 });
            let power = if first is Some {
                first
            } else {
                second
            };
            let r = power->0;
            let status = power_status(r, product);
            let link = reply_in(world, ReadStateView::PulsarInfo { status });
            let max_hz = link_max_of(link->0);
            let mem = reply_in(world, ReadStateView::PulsarRate { status, max_hz: max_hz->0 });
            let end = read_run(open, world);
            if world(open) == EventView::Opened(true) && power is Some && r.len() >= 10 && r[0]
                == 0x08 && r[1] == 0x04 {
                &&& end matches ReadStateView::Done(ReadView::Status(s))
                &&& s.percent == status.percent
                &&& s.charging == status.charging
                &&& s.voltage_mv == status.voltage_mv
                &&& s.product == product
                &&& s.polling is Some <==> link is Some && max_hz is Some && mem is Some
                    && polling_of(mem->0) is Some
                &&& s.polling is Some ==> s.polling->0.max_hz == max_hz->0 && s.polling->0.hz
                    == polling_of(mem->0)->0 && s.polling->0.rates == PULSAR_RATES@
            } else {
                end == ReadStateView::Done(ReadView::NoResponse(product))
            }
        }),
{
    law_pulsar_reading(info, world);
    let product = info.product;
    let first = reply_in(world, ReadStateView::PulsarPower { product, left: 1 });
    let second = reply_in(world, ReadStateView::PulsarPower { product, left: 0 });
    let power = if first is Some {
        first
    } else {
        second
    };
    crate::protocol::law_power_reply(power->0, product);
    if pulsar_status(power->0, product) is Some {
        assert(pulsar_status(power->0, product)->0 == power_status(power->0, product));
    }
}

/// Reading a VAXEE mouse, byte by byte. Of the first attempt whose battery and
/// charging replies are both valid, byte 5 tells the charge in steps of 5% and
/// whether it charges; without such an attempt the mouse is not responding, as
/// where it does not open. The polling state is there just where the rate and the
/// tracking reply are valid and make sense.
pub proof fn law_vaxee_bytes(info: DeviceView, world: spec_fn(ReadStateView) -> EventView)
    requires
        is_world(world),
    ensures
        ({
            let (product, pid) = (info.product, info.pid);
            let open = ReadStateView::Open { vendor: Vendor::Vaxee, info };
            let bat = |left: u8|
                reply_in(world, ReadStateView::VaxeeBattery { product, pid, left });
            let chg = |left: u8|
                reply_in(
                    world,
                    ReadStateView::VaxeeCharging { product, pid, left, battery: bat(left) },
                );
            let valid = |reply: Option<Seq<u8>>|
                reply is Some && reply->0.len() >= 6 && reply->0[2] != 0;
            let left = if valid(bat(1)) && valid(chg(1)) {
                1u8
            } else {
                0u8
            };
            let (b, c) = (bat(left), chg(left));
            let status = StatusView {
                percent: if b->0[5] <= 20 {
                    (5 * b->0[5]) as u8
                } else {
                    100
                },
                charging: c->0[5] != 0,
                voltage_mv: None,
                product,
                polling: None,
            };
            let rate = reply_in(world, ReadStateView::VaxeeRate { status, pid });
            let tracking = reply_in(
                world,
                ReadStateView::VaxeeTracking { status, pid, rate: rate->0 },
            );
            let end = read_run(open, world);
            if world(open) == EventView::Opened(true) && valid(b) && valid(c) {
                &&& end matches ReadStateView::Done(ReadView::Status(s))
                &&& s.percent == status.percent
                &&& s.charging == status.charging
                &&& s.voltage_mv is None
                &&& s.product == product
                &&& valid(rate) && valid(tracking) ==> s.polling == vaxee_polling(
                    rate->0,
                    tracking->0,
                    pid,
                )
                &&& !(valid(rate) && valid(tracking)) ==> s.polling is None
            } else {
                end == ReadStateView::Done(ReadView::NoResponse(product))
            }
        }),
{
    law_vaxee_reading(info, world);
    let (product, pid) = (info.product, info.pid);
    let b1 = reply_in(world, ReadStateView::VaxeeBattery { product, pid, left: 1 });
    let b0 = reply_in(world, ReadStateView::VaxeeBattery { product, pid, left: 0 });
    let c1 = reply_in(
        world,
        ReadStateView::VaxeeCharging { product, pid, left: 1, battery: b1 },
    );
    let c0 = reply_in(
        world,
        ReadStateView::VaxeeCharging { product, pid, left: 0, battery: b0 },
    );
    let (b, c) = if heard(b1) is Some && heard(c1) is Some {
        (b1, c1)
    } else {
        (b0, c0)
    };
    crate::protocol::law_vaxee_battery_reply(b->0, c->0, product);
    assert(vaxee_status(b->0, c->0, product) == (StatusView {
        percent: if b->0[5] <= 20 {
            (5 * b->0[5]) as u8
        } else {
            100
        },
        charging: c->0[5] != 0,
        voltage_mv: None,
        product,
        polling: None,
    }));
}

/// Setting a rate, byte by byte: it is acknowledged just where the device opens and
/// the first or the second reply is, for a Pulsar mouse, `.. 07 00 00 00 02 <code>
/// <0x55 - code>`, for a VAXEE one `.. A5 07 03 .. 01`.
pub proof fn law_set_bytes(
    vendor: Vendor,
    info: DeviceView,
    value: u8,
    world: spec_fn(SetStateView) -> EventView,
)
    requires
        is_set_world(world),
    ensures
        ({
            let open = SetStateView::Open { vendor, info, value };
            let reply = |left: u8|
                match world(
                    if vendor == Vendor::Pulsar {
                        SetStateView::Pulsar { code: value, left }
                    } else {
                        SetStateView::Vaxee { index: value, left }
                    },
                ) {
                    EventView::Reply(reply) => reply,
                    _ => None,
                };
            let acked = |left: u8|
                {
                    let r = reply(left)->0;
                    &&& reply(left) is Some
                    &&& if vendor == Vendor::Pulsar {
                        &&& r.len() >= 8
                        &&& r.subrange(1, 7) == seq![0x07u8, 0, 0, 0, 2, value]
                        &&& (r[6] + r[7]) % 256 == 0x55
                    } else {
                        &&& r.len() >= 6
                        &&& r[1] == 0xa5
                        &&& r[2] == 0x07
                        &&& r[3] == 0x03
                        &&& r[5] == 1
                    }
                };
            set_run(open, world) == SetStateView::Done(
                world(open) == EventView::Opened(true) && (acked(1) || acked(0)),
            )
        }),
{
    law_set_is_acknowledged(vendor, info, value, world);
    let states = |left: u8|
        if vendor == Vendor::Pulsar {
            SetStateView::Pulsar { code: value, left }
        } else {
            SetStateView::Vaxee { index: value, left }
        };
    assert(answers(world(states(1)), set_action(states(1))));
    assert(answers(world(states(0)), set_action(states(0))));
    lemma_pulsar_ack_bytes(value, world(states(1))->Reply_0->0);
    lemma_pulsar_ack_bytes(value, world(states(0))->Reply_0->0);
}

proof fn lemma_pulsar_ack_bytes(code: u8, r: Seq<u8>)
    ensures
        echoes(set_rate_frame(code), r) <==> r.len() >= 8 && r.subrange(1, 7) == seq![
            0x07u8,
            0,
            0,
            0,
            2,
            code,
        ] && (r[6] + r[7]) % 256 == 0x55,
{
    let f = set_rate_frame(code);
    crate::protocol::law_set_rate_frame(code);
    crate::protocol::law_echo(f, r);
    if r.len() >= 8 {
        let part = r.subrange(1, 7);
        assert(part.len() == 6);
        assert(part[0] == r[1] && part[1] == r[2] && part[2] == r[3] && part[3] == r[4] && part[4]
            == r[5] && part[5] == r[6]);
        if echoes(f, r) {
            assert(r[1] == f[1] && r[2] == f[2] && r[3] == f[3] && r[4] == f[4] && r[5] == f[5]
                && r[6] == f[6] && r[7] == f[7]);
            assert(part == seq![0x07u8, 0, 0, 0, 2, code]);
        } else if part == seq![0x07u8, 0, 0, 0, 2, code] && (r[6] + r[7]) % 256 == 0x55 {
            assert forall|i: int| 1 <= i < 8 implies #[trigger] r[i] == f[i] by {
                assert(i == 7 || r[i] == part[i - 1]);
            }
        }
    }
}

/// A report answers a command where it is `08 <cmd>`; the exchange ends without a
/// reply from 2.5 s on, and before that reads for what is left of them, to the
/// millisecond.
pub proof fn law_exchange_steps(cmd: u8, elapsed_ns: u64, report: Seq<u8>)
    ensures
        is_reply(report, cmd) <==> report.len() >= 2 && report[0] == 0x08 && report[1] == cmd,
        after_report(cmd, Some(report)) == (if report.len() >= 2 && report[0] == 0x08 && report[1]
            == cmd {
            PulsarXactView::Done(Some(report))
        } else {
            PulsarXactView::Clock { cmd }
        }),
        after_report(cmd, None) == PulsarXactView::Done(None),
        elapsed_ns >= 2_500_000_000 <==> after_clock(cmd, elapsed_ns) == PulsarXactView::Done(None),
        elapsed_ns < 2_500_000_000 ==> (after_clock(cmd, elapsed_ns) matches PulsarXactView::Read {
            cmd: c,
            timeout_ms,
        } && c == cmd && elapsed_ns + timeout_ms * 1_000_000 <= 2_500_000_000 < elapsed_ns
            + timeout_ms * 1_000_000 + 1_000_000),
{
}

/// An event that does not answer what the state asks for changes nothing.
pub proof fn law_other_events_change_nothing(
    reading: ReadStateView,
    setting: SetStateView,
    event: EventView,
)
    ensures
        !answers(event, read_action(reading)) ==> read_next(reading, event) == reading,
        !answers(event, set_action(setting)) ==> set_next(setting, event) == setting,
{
}

/// A Pulsar exchange whose frame can't be written has no reply; else the clock
/// decides. A VAXEE exchange that can't be sent has none either; else report 0x0E is
/// fetched after 100 ms, and is the reply where it is valid: six bytes or more, with
/// a command byte that is not zero.
pub proof fn law_exchanges(cmd: u8, report: Seq<u8>)
    ensures
        after_written(PulsarXactView::Write { cmd }, false) == PulsarXactView::Done(None),
        after_written(PulsarXactView::Write { cmd }, true) == (PulsarXactView::Clock { cmd }),
        after_sent(VaxeeXactView::Send, false) == VaxeeXactView::Done(None),
        after_sent(VaxeeXactView::Send, true) == VaxeeXactView::Wait(100),
        ({
            let fetch = after_wait(after_sent(VaxeeXactView::Send, true));
            &&& fetch == VaxeeXactView::Fetch(0x0e)
            &&& after_fetched(fetch, None) == VaxeeXactView::Done(None)
            &&& report.len() >= 6 && report[2] != 0 ==> after_fetched(fetch, Some(report))
                == VaxeeXactView::Done(Some(report))
            &&& report.len() < 6 || report[2] == 0 ==> after_fetched(fetch, Some(report))
                == VaxeeXactView::Done(None)
        }),
{
}

} // verus!
