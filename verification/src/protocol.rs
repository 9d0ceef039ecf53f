//! Vendor battery protocols: the frames and what their replies mean.
//!
//! Pulsar (X3 family, wired or 8K dongle; same as Linux hid-kysona / hid-pulsar):
//!   17-byte OUTPUT reports `08 <cmd> … <ck>` where `ck = 0x55 - sum(bytes 0..16)`.
//!   The reply is an INPUT report echoing the command byte.
//!     cmd 0x01 (info): request byte 5 = 8, bytes 6-9 = nonce;
//!                      reply byte 12 = link type (wired / 1K / 2K / 4K / 8K).
//!     cmd 0x04 (power): reply [6]=battery% [7]=charging [8..9]=voltage mV BE.
//!     cmd 0x07 / 0x08 (mem set / get): bytes 3-4 = address, 5 = length,
//!                      6.. = data. Single-byte settings are stored as the
//!                      pair `(v, 0x55 - v)`; the polling rate lives at 0x0000
//!                      as the report period (0x01 = 1 kHz … 0x40 = 8 kHz).
//!
//! VAXEE (4K dongle):
//!   64-byte FEATURE reports `0E A5 <cmd> <rw> <len> <data…>`, rw 1 = read,
//!   2 = write. The reply echoes the cmd (non-zero = valid) with data at [5..].
//!     cmd 0x0B -> resp[5]*5 = battery %, cmd 0x10 -> resp[5]!=0 = charging.
//!     cmd 0x07 -> resp[5] = polling-rate index 1..5 = 500/1000/2000/4000/8000.
//!     cmd 0x08 -> resp[5] = tracking mode; "Standard" modes cap the rate at 1 kHz.
use vstd::prelude::*;

use crate::hid::{DeviceView, HidDeviceInfo, PULSAR_VID, VAXEE_VID};
use crate::text::{ascii_lower_all, contains_ignoring_case, occurs_in};

verus! {

pub const PULSAR_USAGE_PAGE: u16 = 0xff02;

pub const VAXEE_USAGE_PAGE: u16 = 0xff05;

pub const PULSAR_REPORT_ID: u8 = 0x08;

pub const PULSAR_CMD_INFO: u8 = 0x01;

pub const PULSAR_CMD_POWER: u8 = 0x04;

pub const PULSAR_CMD_MEM_SET: u8 = 0x07;

pub const PULSAR_CMD_MEM_GET: u8 = 0x08;

/// Frame checksum complement; also used for the `(v, 0x55 - v)` setting pairs.
pub const PULSAR_MAGIC: u8 = 0x55;

pub const PULSAR_ADDR_POLLING: u16 = 0x0000;

pub const VAXEE_REPORT_ID: u8 = 0x0e;

pub const VAXEE_HEADER: u8 = 0xa5;

pub const VAXEE_READ: u8 = 0x01;

pub const VAXEE_WRITE: u8 = 0x02;

pub const VAXEE_CMD_RATE: u8 = 0x07;

pub const VAXEE_CMD_TRACKING: u8 = 0x08;

pub const VAXEE_CMD_BATTERY: u8 = 0x0b;

pub const VAXEE_CMD_CHARGING: u8 = 0x10;

/// Every polling rate the Pulsar protocol can encode, ascending.
pub const PULSAR_RATES: [u16; 7] = [125, 250, 500, 1000, 2000, 4000, 8000];

/// Every polling rate the VAXEE protocol can encode, ascending (index 1..5).
pub const VAXEE_RATES: [u16; 5] = [500, 1000, 2000, 4000, 8000];

/// What a mouse said of its battery.
pub struct BatteryStatus {
    pub percent: u8,
    pub charging: bool,
    pub voltage_mv: Option<u16>,
    pub product: String,
    /// Polling-rate state; `None` if the mouse didn't answer that part.
    pub polling: Option<PollingInfo>,
}

#[derive(Clone, Copy, Debug, PartialEq, Eq)]
pub struct PollingInfo {
    /// Rate the mouse is currently set to.
    pub hz: u16,
    /// Highest rate the current link (cable, dongle, tracking mode) supports.
    pub max_hz: u16,
    /// Every rate this vendor's protocol can encode, ascending; the menu
    /// offers those up to `max_hz`.
    pub rates: &'static [u16],
}

pub enum ReadResult {
    Status(BatteryStatus),
    /// A supported device is present but didn't answer (mouse asleep / out of range).
    NoResponse(String),
    NoDevice,
}

/// The meaning of a `PollingInfo`.
#[verifier::ext_equal]
pub struct PollingView {
    pub hz: u16,
    pub max_hz: u16,
    pub rates: Seq<u16>,
}

/// The meaning of a `BatteryStatus`.
#[verifier::ext_equal]
pub struct StatusView {
    pub percent: u8,
    pub charging: bool,
    pub voltage_mv: Option<u16>,
    pub product: Seq<char>,
    pub polling: Option<PollingView>,
}

/// The meaning of a `ReadResult`.
#[verifier::ext_equal]
pub enum ReadView {
    Status(StatusView),
    NoResponse(Seq<char>),
    NoDevice,
}

impl View for PollingInfo {
    type V = PollingView;

    open spec fn view(&self) -> PollingView {
        PollingView { hz: self.hz, max_hz: self.max_hz, rates: self.rates@ }
    }
}

pub open spec fn polling_option(polling: Option<PollingInfo>) -> Option<PollingView> {
    match polling {
        Some(polling) => Some(polling@),
        None => None,
    }
}

impl View for BatteryStatus {
    type V = StatusView;

    open spec fn view(&self) -> StatusView {
        StatusView {
            percent: self.percent,
            charging: self.charging,
            voltage_mv: self.voltage_mv,
            product: self.product@,
            polling: polling_option(self.polling),
        }
    }
}

pub open spec fn status_option(status: Option<BatteryStatus>) -> Option<StatusView> {
    match status {
        Some(status) => Some(status@),
        None => None,
    }
}

impl View for ReadResult {
    type V = ReadView;

    open spec fn view(&self) -> ReadView {
        match self {
            ReadResult::Status(status) => ReadView::Status(status@),
            ReadResult::NoResponse(product) => ReadView::NoResponse(product@),
            ReadResult::NoDevice => ReadView::NoDevice,
        }
    }
}

// ---------------------------------------------------------------------------
// Choosing the device
/// Whether a device is of a vendor, on the usage page of its protocol.
pub open spec fn speaks(d: DeviceView, vid: u16, usage_page: u16) -> bool {
    d.vid == vid && d.usage_page == usage_page
}

/// The position of the first device that speaks a protocol, or the number of
/// devices.
pub open spec fn speaker(devices: Seq<HidDeviceInfo>, vid: u16, usage_page: u16) -> int
    decreases devices.len(),
{
    if devices.len() == 0 || speaks(devices[0]@, vid, usage_page) {
        0
    } else {
        1 + speaker(devices.drop_first(), vid, usage_page)
    }
}

/// The chosen device speaks the protocol, and none before it does.
pub proof fn law_first_speaker(devices: Seq<HidDeviceInfo>, vid: u16, usage_page: u16)
    ensures
        ({
            let k = speaker(devices, vid, usage_page);
            &&& 0 <= k <= devices.len()
            &&& forall|i: int| 0 <= i < k ==> !speaks((#[trigger] devices[i])@, vid, usage_page)
            &&& k < devices.len() ==> speaks(devices[k]@, vid, usage_page)
        }),
    decreases devices.len(),
{
    if devices.len() > 0 && !speaks(devices[0]@, vid, usage_page) {
        let rest = devices.drop_first();
        law_first_speaker(rest, vid, usage_page);
        let k = speaker(devices, vid, usage_page);
        assert forall|i: int| 0 <= i < k implies !speaks(
            (#[trigger] devices[i])@,
            vid,
            usage_page,
        ) by {
            if i > 0 {
                assert(devices[i] == rest[i - 1]);
            }
        }
        if k < devices.len() {
            assert(devices[k] == rest[k - 1]);
        }
    }
}

fn find_speaker(devices: &[HidDeviceInfo], vid: u16, usage_page: u16) -> (r: Option<
    &HidDeviceInfo,
>)
    ensures
        match r {
            Some(info) => speaker(devices@, vid, usage_page) < devices@.len() && *info
                == devices@[speaker(devices@, vid, usage_page)],
            None => speaker(devices@, vid, usage_page) == devices@.len(),
        },
{
    let mut i: usize = 0;
    assert(devices@.skip(0) == devices@);
    while i < devices.len()
        invariant
            i <= devices.len(),
            speaker(devices@, vid, usage_page) == i + speaker(
                devices@.skip(i as int),
                vid,
                usage_page,
            ),
        decreases devices.len() - i,
    {
        if devices[i].vid == vid && devices[i].usage_page == usage_page {
            return Some(&devices[i]);
        }
        assert(devices@.skip(i as int).drop_first() == devices@.skip(i + 1));
        i += 1;
    }
    None
}

/// The first Pulsar mouse on the protocol's usage page.
pub fn find_pulsar(devices: &[HidDeviceInfo]) -> (r: Option<&HidDeviceInfo>)
    ensures
        match r {
            Some(info) => speaker(devices@, PULSAR_VID, PULSAR_USAGE_PAGE) < devices@.len() && *info
                == devices@[speaker(devices@, PULSAR_VID, PULSAR_USAGE_PAGE)],
            None => speaker(devices@, PULSAR_VID, PULSAR_USAGE_PAGE) == devices@.len(),
        },
{
    find_speaker(devices, PULSAR_VID, PULSAR_USAGE_PAGE)
}

/// The first VAXEE mouse on the protocol's usage page.
pub fn find_vaxee(devices: &[HidDeviceInfo]) -> (r: Option<&HidDeviceInfo>)
    ensures
        match r {
            Some(info) => speaker(devices@, VAXEE_VID, VAXEE_USAGE_PAGE) < devices@.len() && *info
                == devices@[speaker(devices@, VAXEE_VID, VAXEE_USAGE_PAGE)],
            None => speaker(devices@, VAXEE_VID, VAXEE_USAGE_PAGE) == devices@.len(),
        },
{
    find_speaker(devices, VAXEE_VID, VAXEE_USAGE_PAGE)
}

/// A product string that names its vendor.
pub open spec fn named(vendor: Seq<char>, product: Seq<char>) -> Seq<char> {
    if occurs_in(ascii_lower_all(product), ascii_lower_all(vendor)) {
        product
    } else {
        vendor.push(' ') + product
    }
}

/// The HID product string is often just the receiver name ("8K Dongle Gen.2"), so
/// prefix the vendor for the tooltip unless it already names it.
pub fn with_vendor(vendor: &str, info: &HidDeviceInfo) -> (r: HidDeviceInfo)
    ensures
        r@ == (DeviceView { product: named(vendor@, info@.product), ..info@ }),
{
    let product = if contains_ignoring_case(info.product.as_str(), vendor) {
        info.product.clone()
    } else {
        let mut product = vendor.to_owned();
        product.push(' ');
        product.append(info.product.as_str());
        product
    };
    let mut r = info.clone();
    r.product = product;
    r
}

// ---------------------------------------------------------------------------
// Pulsar frames
/// The sum of bytes.
pub open spec fn byte_sum(s: Seq<u8>) -> int
    decreases s.len(),
{
    if s.len() == 0 {
        0
    } else {
        byte_sum(s.drop_last()) + s.last()
    }
}

/// What is missing of a byte or a sum to the magic number, modulo 256.
pub open spec fn complement(v: int) -> u8 {
    ((0x55 - v) % 256) as u8
}

/// The first 16 bytes of a frame: report ID, command, and `body` from byte 2.
pub open spec fn frame_head(cmd: u8, body: Seq<u8>) -> Seq<u8> {
    Seq::new(
        16,
        |i: int|
            if i == 0 {
                PULSAR_REPORT_ID
            } else if i == 1 {
                cmd
            } else if i - 2 < body.len() {
                body[i - 2]
            } else {
                0u8
            },
    )
}

/// A 17-byte frame with its checksum.
pub open spec fn frame(cmd: u8, body: Seq<u8>) -> Seq<u8> {
    frame_head(cmd, body).push(complement(byte_sum(frame_head(cmd, body))))
}

/// Build a 17-byte Pulsar frame: report ID, command, `body` from byte 2, and the
/// checksum in byte 16.
pub fn pulsar_frame(cmd: u8, body: &[u8]) -> (r: [u8; 17])
    requires
        body@.len() <= 15,
    ensures
        r@ == frame(cmd, body@),
{
    let mut f = [0u8; 17];
    f[0] = PULSAR_REPORT_ID;
    f[1] = cmd;
    let mut i: usize = 0;
    while i < body.len()
        invariant
            body@.len() <= 15,
            i <= body.len(),
            f@.len() == 17,
            f@[0] == PULSAR_REPORT_ID,
            f@[1] == cmd,
            forall|k: int|
                2 <= k < 17 ==> #[trigger] f@[k] == (if k - 2 < i {
                    body@[k - 2]
                } else {
                    0
                }),
        decreases body.len() - i,
    {
        f[2 + i] = body[i];
        i += 1;
    }
    let ghost head = frame_head(cmd, body@);
    let mut sum: u8 = 0;
    let mut k: usize = 0;
    assert(head.take(0) == Seq::<u8>::empty());
    while k < 16
        invariant
            k <= 16,
            f@.len() == 17,
            head == frame_head(cmd, body@),
            forall|j: int| 0 <= j < 16 ==> #[trigger] f@[j] == head[j],
            sum == byte_sum(head.take(k as int)) % 256,
        decreases 16 - k,
    {
        assert(head.take(k + 1).drop_last() == head.take(k as int));
        sum = sum.wrapping_add(f[k]);
        k += 1;
    }
    assert(head.take(16) == head);
    f[16] = PULSAR_MAGIC.wrapping_sub(sum);
    assert(f@ == frame(cmd, body@));
    f
}

/// The bytes of every frame sum to the magic number, modulo 256.
pub proof fn law_frame_sums_to_magic(cmd: u8, body: Seq<u8>)
    ensures
        frame(cmd, body).len() == 17,
        byte_sum(frame(cmd, body)) % 256 == PULSAR_MAGIC,
{
    assert(frame(cmd, body).drop_last() == frame_head(cmd, body));
}

/// Link/model query. The nonce is echoed back transformed; it goes unchecked, the
/// reply's byte 12 is what matters.
pub fn pulsar_info_request() -> (r: [u8; 17])
    ensures
        r@ == frame(PULSAR_CMD_INFO, seq![0, 0, 0, 8, 0x11, 0x22, 0x33, 0x44]),
{
    let body: [u8; 8] = [0, 0, 0, 8, 0x11, 0x22, 0x33, 0x44];
    assert(body@ == seq![0u8, 0, 0, 8, 0x11, 0x22, 0x33, 0x44]);
    pulsar_frame(PULSAR_CMD_INFO, &body)
}

pub open spec fn high_byte(v: u16) -> u8 {
    (v / 256) as u8
}

pub open spec fn low_byte(v: u16) -> u8 {
    (v % 256) as u8
}

/// Read `len` bytes of memory at `addr`.
pub fn pulsar_mem_get(addr: u16, len: u8) -> (r: [u8; 17])
    ensures
        r@ == frame(PULSAR_CMD_MEM_GET, seq![0, high_byte(addr), low_byte(addr), len]),
{
    let body: [u8; 4] = [0, (addr / 256) as u8, (addr % 256) as u8, len];
    assert(body@ == seq![0u8, high_byte(addr), low_byte(addr), len]);
    pulsar_frame(PULSAR_CMD_MEM_GET, &body)
}

/// Write `data` into memory at `addr`.
pub fn pulsar_mem_set(addr: u16, data: &[u8]) -> (r: [u8; 17])
    requires
        data@.len() <= 11,
    ensures
        r@ == frame(
            PULSAR_CMD_MEM_SET,
            seq![0, high_byte(addr), low_byte(addr), data@.len() as u8] + data@,
        ),
{
    let mut body: Vec<u8> = vec![0, (addr / 256) as u8, (addr % 256) as u8, data.len() as u8];
    body.extend_from_slice(data);
    assert(body@ == seq![0u8, high_byte(addr), low_byte(addr), data@.len() as u8] + data@);
    pulsar_frame(PULSAR_CMD_MEM_SET, body.as_slice())
}

/// Whether a reply echoes a mem-set: command, address, length and data.
pub open spec fn echoes(req: Seq<u8>, resp: Seq<u8>) -> bool {
    let n = 6 + req[5];
    resp.len() >= n && resp.subrange(1, n) == req.subrange(1, n)
}

/// A mem-set is acknowledged by echoing command, address, length and data.
pub fn pulsar_set_acked(req: &[u8; 17], resp: &[u8]) -> (r: bool)
    requires
        6 + req@[5] <= 17 || resp@.len() < 6 + req@[5],
    ensures
        r <==> echoes(req@, resp@),
{
    let n: usize = 6 + req[5] as usize;
    if resp.len() < n {
        return false;
    }
    let mut i: usize = 1;
    while i < n
        invariant
            1 <= i <= n,
            n == 6 + req@[5],
            n <= 17,
            n <= resp@.len(),
            forall|k: int| 1 <= k < i ==> #[trigger] resp@[k] == req@[k],
        decreases n - i,
    {
        if resp[i] != req[i] {
            assert(resp@.subrange(1, n as int)[i - 1] != req@.subrange(1, n as int)[i - 1]);
            return false;
        }
        i += 1;
    }
    assert(resp@.subrange(1, n as int) == req@.subrange(1, n as int));
    true
}

// ---------------------------------------------------------------------------
// Pulsar polling rates
/// Report-period code of a polling rate.
pub open spec fn code_of(hz: u16) -> Option<u8> {
    if hz == 125 {
        Some(0x08)
    } else if hz == 250 {
        Some(0x04)
    } else if hz == 500 {
        Some(0x02)
    } else if hz == 1000 {
        Some(0x01)
    } else if hz == 2000 {
        Some(0x10)
    } else if hz == 4000 {
        Some(0x20)
    } else if hz == 8000 {
        Some(0x40)
    } else {
        None
    }
}

/// Report-period code for a polling rate: 1 kHz = 1, slower rates are the period
/// in ms, faster ones scale up from 0x10 = 2 kHz.
pub fn pulsar_rate_code(hz: u16) -> (r: Option<u8>)
    ensures
        r == code_of(hz),
{
    match hz {
        125 => Some(0x08),
        250 => Some(0x04),
        500 => Some(0x02),
        1000 => Some(0x01),
        2000 => Some(0x10),
        4000 => Some(0x20),
        8000 => Some(0x40),
        _ => None,
    }
}

/// The polling rate of a report-period code.
pub open spec fn rate_of_code(code: u8) -> Option<u16> {
    if code == 0x08 {
        Some(125)
    } else if code == 0x04 {
        Some(250)
    } else if code == 0x02 {
        Some(500)
    } else if code == 0x01 {
        Some(1000)
    } else if code == 0x10 {
        Some(2000)
    } else if code == 0x20 {
        Some(4000)
    } else if code == 0x40 {
        Some(8000)
    } else {
        None
    }
}

/// The polling rate with a report-period code.
pub fn pulsar_code_rate(code: u8) -> (r: Option<u16>)
    ensures
        r == rate_of_code(code),
{
    match code {
        0x08 => Some(125),
        0x04 => Some(250),
        0x02 => Some(500),
        0x01 => Some(1000),
        0x10 => Some(2000),
        0x20 => Some(4000),
        0x40 => Some(8000),
        _ => None,
    }
}

/// Rates and report-period codes are each other's inverse, and the rates that
/// have a code are those of `PULSAR_RATES`.
pub proof fn law_pulsar_rates_round_trip(hz: u16, code: u8)
    ensures
        code_of(hz) == Some(code) <==> rate_of_code(code) == Some(hz),
        code_of(hz) is Some <==> PULSAR_RATES@.contains(hz),
{
    let rates = PULSAR_RATES@;
    assert(rates[0] == 125 && rates[1] == 250 && rates[2] == 500 && rates[3] == 1000 && rates[4]
        == 2000 && rates[5] == 4000 && rates[6] == 8000);
}

// ---------------------------------------------------------------------------
// Pulsar replies
/// Whether a report is a Pulsar reply to a command, of at least `len` bytes.
pub open spec fn replies_to(resp: Seq<u8>, cmd: u8, len: int) -> bool {
    resp.len() >= len && resp[0] == PULSAR_REPORT_ID && resp[1] == cmd
}

/// Highest polling rate of a link type, from the same table as Pulsar's web
/// driver (Bibimbap) and hid-pulsar's CON_* enum.
pub open spec fn link_max(link: u8) -> Option<u16> {
    if link == 0 || link == 2 {
        // 1K dongle; wired
        Some(1000)
    } else if link == 1 {
        // 4K dongle
        Some(4000)
    } else if link == 4 {
        // 2K dongle
        Some(2000)
    } else if link == 3 || link == 5 {
        // wired, 8K-capable; 8K dongle
        Some(8000)
    } else {
        None
    }
}

/// The ceiling that an info reply tells of.
pub open spec fn link_max_of(resp: Seq<u8>) -> Option<u16> {
    if replies_to(resp, PULSAR_CMD_INFO, 13) {
        link_max(resp[12])
    } else {
        None
    }
}

/// Highest polling rate the link in an info reply supports.
pub fn parse_pulsar_link_max(resp: &[u8]) -> (r: Option<u16>)
    ensures
        r == link_max_of(resp@),
{
    if resp.len() < 13 || resp[0] != PULSAR_REPORT_ID || resp[1] != PULSAR_CMD_INFO {
        return None;
    }
    match resp[12] {
        0 => Some(1000),  // 1K dongle
        1 => Some(4000),  // 4K dongle
        2 => Some(1000),  // wired
        3 => Some(8000),  // wired, 8K-capable
        4 => Some(2000),  // 2K dongle
        5 => Some(8000),  // 8K dongle
        _ => None,
    }
}

/// The rate that a mem-get reply tells of: it is for the rate's address, and the
/// stored code and its complement agree.
pub open spec fn polling_of(resp: Seq<u8>) -> Option<u16> {
    if replies_to(resp, PULSAR_CMD_MEM_GET, 8) && resp[3] == high_byte(PULSAR_ADDR_POLLING)
        && resp[4] == low_byte(PULSAR_ADDR_POLLING) && resp[7] == complement(resp[6] as int) {
        rate_of_code(resp[6])
    } else {
        None
    }
}

/// Polling rate from a mem-get reply for address 0x0000: the stored code and its
/// `0x55 - code` complement must agree.
pub fn parse_pulsar_polling(resp: &[u8]) -> (r: Option<u16>)
    ensures
        r == polling_of(resp@),
{
    if resp.len() < 8 || resp[0] != PULSAR_REPORT_ID || resp[1] != PULSAR_CMD_MEM_GET || resp[3]
        != (PULSAR_ADDR_POLLING / 256) as u8 || resp[4] != (PULSAR_ADDR_POLLING % 256) as u8
        || resp[7] != PULSAR_MAGIC.wrapping_sub(resp[6]) {
        return None;
    }
    pulsar_code_rate(resp[6])
}

pub open spec fn at_most_100(v: int) -> u8 {
    if v > 100 {
        100
    } else {
        v as u8
    }
}

/// The battery state that a power reply tells of. Charging is exactly 1, not
/// "non-zero", and the voltage is big-endian.
pub open spec fn pulsar_status(resp: Seq<u8>, product: Seq<char>) -> Option<StatusView> {
    if replies_to(resp, PULSAR_CMD_POWER, 10) {
        Some(
            StatusView {
                percent: at_most_100(resp[6] as int),
                charging: resp[7] == 1,
                voltage_mv: Some((resp[8] * 256 + resp[9]) as u16),
                product,
                polling: None,
            },
        )
    } else {
        None
    }
}

/// Decode a Pulsar input report. `None` if it isn't a battery reply.
pub fn parse_pulsar(resp: &[u8], product: &str) -> (r: Option<BatteryStatus>)
    ensures
        status_option(r) == pulsar_status(resp@, product@),
{
    if resp.len() < 10 || resp[0] != PULSAR_REPORT_ID || resp[1] != PULSAR_CMD_POWER {
        return None;
    }
    Some(
        BatteryStatus {
            percent: if resp[6] > 100 {
                100
            } else {
                resp[6]
            },
            charging: resp[7] == 1,
            voltage_mv: Some(resp[8] as u16 * 256 + resp[9] as u16),
            product: product.to_owned(),
            polling: None,
        },
    )
}

// ---------------------------------------------------------------------------
// VAXEE requests
/// A read request for a command.
pub open spec fn read_request(cmd: u8) -> Seq<u8> {
    seq![VAXEE_REPORT_ID, VAXEE_HEADER, cmd, VAXEE_READ, 1]
}

/// A write request for a command.
pub open spec fn write_request(cmd: u8, data: Seq<u8>) -> Seq<u8> {
    seq![VAXEE_REPORT_ID, VAXEE_HEADER, cmd, VAXEE_WRITE, (data.len() % 256) as u8] + data
}

/// 5-byte VAXEE feature request: report ID, header, cmd, read, length.
pub fn vaxee_request(cmd: u8) -> (r: [u8; 5])
    ensures
        r@ == read_request(cmd),
{
    [VAXEE_REPORT_ID, VAXEE_HEADER, cmd, VAXEE_READ, 0x01]
}

/// VAXEE write request: report ID, header, cmd, write, length, data.
pub fn vaxee_write_request(cmd: u8, data: &[u8]) -> (r: Vec<u8>)
    ensures
        r@ == write_request(cmd, data@),
{
    let mut req: Vec<u8> = vec![
        VAXEE_REPORT_ID,
        VAXEE_HEADER,
        cmd,
        VAXEE_WRITE,
        (data.len() % 256) as u8,
    ];
    req.extend_from_slice(data);
    assert(req@ == write_request(cmd, data@));
    req
}

/// Whether a VAXEE reply is valid.
pub open spec fn is_valid(resp: Seq<u8>) -> bool {
    resp.len() >= 6 && resp[2] != 0
}

/// A VAXEE reply is valid only when the mouse echoed a non-zero cmd byte.
pub fn vaxee_valid(resp: Vec<u8>) -> (r: Option<Vec<u8>>)
    ensures
        r == (if is_valid(resp@) {
            Some(resp)
        } else {
            None
        }),
{
    if resp.len() < 6 || resp[2] == 0 {
        return None;
    }
    Some(resp)
}

/// Whether a VAXEE reply acknowledges a write.
pub open spec fn acknowledges(resp: Seq<u8>, cmd: u8) -> bool {
    &&& resp.len() >= 6
    &&& resp[1] == VAXEE_HEADER
    &&& resp[2] == cmd
    &&& resp[3] == 0x03
    &&& resp[5] == 1
}

/// A write is acknowledged as `A5 <cmd> 03 01 01` (captured: `0e a5 07 03 01 01`).
pub fn vaxee_write_acked(resp: &[u8], cmd: u8) -> (r: bool)
    ensures
        r <==> acknowledges(resp@, cmd),
{
    resp.len() >= 6 && resp[1] == VAXEE_HEADER && resp[2] == cmd && resp[3] == 0x03 && resp[5] == 1
}

/// A reply to a read of any command, even of the same one, is no acknowledgement.
pub proof fn law_read_reply_is_no_ack(resp: Seq<u8>, cmd: u8)
    requires
        resp.len() >= 6,
        resp[3] == VAXEE_READ,
    ensures
        !acknowledges(resp, cmd),
{
}

// ---------------------------------------------------------------------------
// VAXEE polling rates
/// The rate with an index: 1..5 = 500/1000/2000/4000/8000.
pub open spec fn rate_of_index(index: u8) -> Option<u16> {
    if 1 <= index <= 5 {
        Some(VAXEE_RATES@[index - 1])
    } else {
        None
    }
}

/// The index of a rate.
pub open spec fn index_of(hz: u16) -> Option<u8> {
    if hz == 500 {
        Some(1)
    } else if hz == 1000 {
        Some(2)
    } else if hz == 2000 {
        Some(3)
    } else if hz == 4000 {
        Some(4)
    } else if hz == 8000 {
        Some(5)
    } else {
        None
    }
}

/// Polling-rate index for cmd 0x07: 1..5 = 500/1000/2000/4000/8000.
pub fn vaxee_rate_index(hz: u16) -> (r: Option<u8>)
    ensures
        r == index_of(hz),
{
    match hz {
        500 => Some(1),
        1000 => Some(2),
        2000 => Some(3),
        4000 => Some(4),
        8000 => Some(5),
        _ => None,
    }
}

/// The polling rate with an index.
pub fn vaxee_index_rate(index: u8) -> (r: Option<u16>)
    ensures
        r == rate_of_index(index),
{
    if 1 <= index && index <= 5 {
        Some(VAXEE_RATES[(index - 1) as usize])
    } else {
        None
    }
}

/// Rates and indexes are each other's inverse, and the rates that have an index
/// are those of `VAXEE_RATES`.
pub proof fn law_vaxee_rates_round_trip(hz: u16, index: u8)
    ensures
        index_of(hz) == Some(index) <==> rate_of_index(index) == Some(hz),
        index_of(hz) is Some <==> VAXEE_RATES@.contains(hz),
{
    let rates = VAXEE_RATES@;
    assert(rates[0] == 500 && rates[1] == 1000 && rates[2] == 2000 && rates[3] == 4000 && rates[4]
        == 8000);
}

// ---------------------------------------------------------------------------
// VAXEE replies
/// Whether a tracking reply tells of a "Standard" mode: mode 0 in the 2-byte
/// encoding, mode 2 or 4 in the 1-byte one.
pub open spec fn standard_tracking(tracking: Seq<u8>) -> bool {
    if tracking[4] == 2 {
        tracking[5] == 0
    } else {
        tracking[5] == 2 || tracking[5] == 4
    }
}

/// The ceiling of a receiver. Any product ID but the receivers' is that of the
/// mouse itself on its cable.
pub open spec fn receiver_max(pid: u16) -> u16 {
    if pid == 0x2002 {
        8000
    } else if pid == 0x1002 || pid == 0x2001 {
        4000
    } else {
        1000
    }
}

/// The polling state that a rate and a tracking reply tell of. The current rate
/// is never hidden by the ceiling.
pub open spec fn vaxee_polling(rate: Seq<u8>, tracking: Seq<u8>, pid: u16) -> Option<PollingView> {
    if rate[2] == VAXEE_CMD_RATE && tracking[2] == VAXEE_CMD_TRACKING && rate_of_index(
        rate[5],
    ) is Some {
        let hz = rate_of_index(rate[5])->0;
        let ceiling = if standard_tracking(tracking) {
            1000
        } else {
            receiver_max(pid)
        };
        Some(
            PollingView {
                hz,
                max_hz: if hz > ceiling {
                    hz
                } else {
                    ceiling
                },
                rates: VAXEE_RATES@,
            },
        )
    } else {
        None
    }
}

/// Current rate and ceiling from validated rate (0x07) and tracking (0x08)
/// replies plus the USB product ID.
///
/// Ceiling rules mirror the web driver: a mouse on its cable, or a "Standard"
/// tracking mode (mode 2/4 in the 1-byte encoding, mode 0 in the 2-byte one),
/// gets 1 kHz; otherwise the receiver decides (VXD02 4K = 4 kHz, 8K = 8 kHz).
pub fn parse_vaxee_polling(rate: &[u8], tracking: &[u8], pid: u16) -> (r: Option<PollingInfo>)
    requires
        rate@.len() > 2,
        rate@[2] == VAXEE_CMD_RATE ==> tracking@.len() > 2,
        rate@[2] == VAXEE_CMD_RATE && tracking@[2] == VAXEE_CMD_TRACKING ==> rate@.len() > 5,
        rate@[2] == VAXEE_CMD_RATE && tracking@[2] == VAXEE_CMD_TRACKING && rate_of_index(
            rate@[5],
        ) is Some ==> tracking@.len() > 5,
    ensures
        polling_option(r) == vaxee_polling(rate@, tracking@, pid),
{
    if rate[2] != VAXEE_CMD_RATE || tracking[2] != VAXEE_CMD_TRACKING {
        return None;
    }
    let hz: u16 = match vaxee_index_rate(rate[5]) {
        Some(hz) => hz,
        None => return None,
    };
    let standard = if tracking[4] == 2 {
        tracking[5] == 0
    } else {
        tracking[5] == 2 || tracking[5] == 4
    };
    let ceiling: u16 = if standard {
        1000
    } else if pid == 0x2002 {
        8000
    } else if pid == 0x1002 || pid == 0x2001 {
        4000
    } else {
        1000
    };
    let max_hz: u16 = if hz > ceiling {
        hz
    } else {
        ceiling
    };
    let polling = PollingInfo { hz, max_hz, rates: &VAXEE_RATES };
    assert(polling@.rates == VAXEE_RATES@);
    Some(polling)
}

/// The battery state that a battery and a charging reply tell of.
pub open spec fn vaxee_status(bat: Seq<u8>, chg: Seq<u8>, product: Seq<char>) -> StatusView {
    StatusView {
        percent: at_most_100(bat[5] * 5),
        charging: chg[5] != 0,
        voltage_mv: None,
        product,
        polling: None,
    }
}

/// Combine validated battery and charging replies.
pub fn parse_vaxee(bat: &[u8], chg: &[u8], product: &str) -> (r: BatteryStatus)
    requires
        bat@.len() > 5,
        chg@.len() > 5,
    ensures
        r@ == vaxee_status(bat@, chg@, product@),
{
    let share: u16 = bat[5] as u16 * 5;
    BatteryStatus {
        percent: if share > 100 {
            100
        } else {
            share as u8
        },
        charging: chg[5] != 0,
        voltage_mv: None,
        product: product.to_owned(),
        polling: None,
    }
}

// ---------------------------------------------------------------------------
// Laws
/// No mouse is ever read above 100%, and VAXEE reports in steps of 5%, without a
/// voltage.
pub proof fn law_percent_is_at_most_100(resp: Seq<u8>, chg: Seq<u8>, product: Seq<char>)
    ensures
        pulsar_status(resp, product) matches Some(s) ==> s.percent <= 100,
        vaxee_status(resp, chg, product).percent <= 100,
        vaxee_status(resp, chg, product).percent % 5 == 0,
        vaxee_status(resp, chg, product).voltage_mv is None,
{
}

/// The data of a request that sets a Pulsar polling rate with a code.
pub open spec fn rate_pair(code: u8) -> Seq<u8> {
    seq![code, complement(code as int)]
}

/// The frame that sets a Pulsar polling rate with a code.
pub open spec fn set_rate_frame(code: u8) -> Seq<u8> {
    frame(
        PULSAR_CMD_MEM_SET,
        seq![0, high_byte(PULSAR_ADDR_POLLING), low_byte(PULSAR_ADDR_POLLING), 2]
            + rate_pair(code),
    )
}

/// A Pulsar rate that is written reads back: a reply to reading the memory that
/// holds what was written there tells of the rate.
pub proof fn law_pulsar_rate_reads_back(hz: u16, resp: Seq<u8>)
    requires
        code_of(hz) is Some,
        replies_to(resp, PULSAR_CMD_MEM_GET, 8),
        resp.subrange(3, 5) == set_rate_frame(code_of(hz)->0).subrange(3, 5),
        resp.subrange(6, 8) == set_rate_frame(code_of(hz)->0).subrange(6, 8),
    ensures
        polling_of(resp) == Some(hz),
{
    let set = set_rate_frame(code_of(hz)->0);
    assert(resp[3] == resp.subrange(3, 5)[0] && set[3] == set.subrange(3, 5)[0]);
    assert(resp[4] == resp.subrange(3, 5)[1] && set[4] == set.subrange(3, 5)[1]);
    assert(resp[6] == resp.subrange(6, 8)[0] && set[6] == set.subrange(6, 8)[0]);
    assert(resp[7] == resp.subrange(6, 8)[1] && set[7] == set.subrange(6, 8)[1]);
    law_pulsar_rates_round_trip(hz, code_of(hz)->0);
}

/// A mouse that echoes a rate's frame, whatever the checksum, acknowledges it,
/// and a frame for another rate does not.
pub proof fn law_pulsar_ack_is_of_the_rate(code: u8, resp: Seq<u8>, other: u8)
    requires
        code != other,
    ensures
        resp.len() >= 8 && resp.subrange(1, 8) == set_rate_frame(code).subrange(1, 8) ==> echoes(
            set_rate_frame(code),
            resp,
        ),
        !echoes(set_rate_frame(code), set_rate_frame(other)),
{
    let (set, alien) = (set_rate_frame(code), set_rate_frame(other));
    assert(set[5] == 2);
    assert(set.subrange(1, 8)[5] == code);
    assert(alien.subrange(1, 8)[5] == other);
}

/// A VAXEE rate that is written reads back: a reply to reading the rate whose data
/// is that of the write request tells of the rate.
pub proof fn law_vaxee_rate_reads_back(hz: u16, rate: Seq<u8>, tracking: Seq<u8>, pid: u16)
    requires
        index_of(hz) is Some,
        rate.len() >= 6,
        rate[2] == VAXEE_CMD_RATE,
        rate[5] == write_request(VAXEE_CMD_RATE, seq![index_of(hz)->0])[5],
        tracking[2] == VAXEE_CMD_TRACKING,
    ensures
        vaxee_polling(rate, tracking, pid) matches Some(p) && p.hz == hz,
{
    law_vaxee_rates_round_trip(hz, index_of(hz)->0);
}

/// A VAXEE mouse's rate is one of the vendor's, and within its own ceiling, which
/// is one of them too.
pub proof fn law_vaxee_polling_is_consistent(rate: Seq<u8>, tracking: Seq<u8>, pid: u16)
    ensures
        vaxee_polling(rate, tracking, pid) matches Some(p) ==> {
            &&& p.hz <= p.max_hz
            &&& p.rates == VAXEE_RATES@
            &&& p.rates.contains(p.hz)
            &&& p.rates.contains(p.max_hz)
        },
{
    let rates = VAXEE_RATES@;
    assert(rates[0] == 500 && rates[1] == 1000 && rates[2] == 2000 && rates[3] == 4000 && rates[4]
        == 8000);
}

/// The lists of rates are strictly ascending.
pub proof fn law_rates_ascend(i: int, j: int)
    requires
        0 <= i < j,
    ensures
        j < 7 ==> PULSAR_RATES@[i] < PULSAR_RATES@[j],
        j < 5 ==> VAXEE_RATES@[i] < VAXEE_RATES@[j],
{
    let (p, v) = (PULSAR_RATES@, VAXEE_RATES@);
    assert(p[0] == 125 && p[1] == 250 && p[2] == 500 && p[3] == 1000 && p[4] == 2000 && p[5]
        == 4000 && p[6] == 8000);
    assert(v[0] == 500 && v[1] == 1000 && v[2] == 2000 && v[3] == 4000 && v[4] == 8000);
}

// ---------------------------------------------------------------------------
// What the bytes mean
/// A report-period code is what it says: up to 1 kHz the period in milliseconds,
/// above that the rate in steps of 125 Hz, from 0x10 = 2 kHz. The rates that have
/// one are 125 Hz doubled up to six times.
pub proof fn law_code_is_the_period(hz: u16, code: u8)
    ensures
        code_of(hz) == Some(code) && hz <= 1000 ==> code * hz == 1000,
        code_of(hz) == Some(code) && hz > 1000 ==> code * 125 == hz,
        rate_of_code(code) == Some(hz) && hz <= 1000 ==> code * hz == 1000,
        rate_of_code(code) == Some(hz) && hz > 1000 ==> code * 125 == hz,
        code_of(hz) is Some <==> (hz == 125 || hz == 250 || hz == 500 || hz == 1000 || hz == 2000
            || hz == 4000 || hz == 8000),
        rate_of_code(code) is Some <==> (code == 1 || code == 2 || code == 4 || code == 8 || code
            == 16 || code == 32 || code == 64),
{
}

/// A power reply is a report 0x08 for command 0x04 of ten bytes or more. Its byte 6
/// is the percentage, cut to 100, whatever the other bytes; byte 7 is 1 just while
/// charging; bytes 8 and 9 are the millivolts, the high byte first.
pub proof fn law_power_reply(resp: Seq<u8>, product: Seq<char>)
    ensures
        pulsar_status(resp, product) is Some <==> resp.len() >= 10 && resp[0] == 0x08 && resp[1]
            == 0x04,
        pulsar_status(resp, product) matches Some(s) ==> {
            &&& resp[6] <= 100 ==> s.percent == resp[6]
            &&& resp[6] > 100 ==> s.percent == 100
            &&& s.charging <==> resp[7] == 1
            &&& s.voltage_mv is Some
            &&& s.voltage_mv->0 == 256 * resp[8] + resp[9]
            &&& s.product == product
            &&& s.polling is None
        },
{
}

/// A percentage of a Pulsar mouse depends on byte 6 alone, and grows with it.
pub proof fn law_percent_is_byte_6(a: Seq<u8>, b: Seq<u8>, product: Seq<char>)
    requires
        pulsar_status(a, product) is Some,
        pulsar_status(b, product) is Some,
        a[6] <= b[6],
    ensures
        pulsar_status(a, product)->0.percent <= pulsar_status(b, product)->0.percent,
        a[6] < b[6] <= 100 ==> pulsar_status(a, product)->0.percent < pulsar_status(
            b,
            product,
        )->0.percent,
        a[6] == b[6] ==> pulsar_status(a, product)->0.percent == pulsar_status(b, product)->0.percent,
{
}

/// An info reply is a report 0x08 for command 0x01 of 13 bytes or more. Its byte 12
/// is the link: 0 and 2 (1K dongle, cable) reach 1 kHz, 4 reaches 2 kHz, 1 reaches
/// 4 kHz, 3 and 5 (8K-capable cable and dongle) reach 8 kHz.
pub proof fn law_info_reply(resp: Seq<u8>)
    ensures
        link_max_of(resp) is Some <==> resp.len() >= 13 && resp[0] == 0x08 && resp[1] == 0x01
            && resp[12] <= 5,
        link_max_of(resp) matches Some(max) ==> {
            &&& max == 1000 <==> resp[12] == 0 || resp[12] == 2
            &&& max == 2000 <==> resp[12] == 4
            &&& max == 4000 <==> resp[12] == 1
            &&& max == 8000 <==> resp[12] == 3 || resp[12] == 5
        },
{
}

/// A rate reply is a report 0x08 for command 0x08 and address 0 of eight bytes or
/// more, whose bytes 6 and 7 sum to 0x55 modulo 256. Byte 6 is the rate's code.
pub proof fn law_rate_reply(resp: Seq<u8>, hz: u16)
    ensures
        polling_of(resp) == Some(hz) <==> {
            &&& resp.len() >= 8
            &&& resp[0] == 0x08
            &&& resp[1] == 0x08
            &&& resp[3] == 0
            &&& resp[4] == 0
            &&& (resp[6] + resp[7]) % 256 == 0x55
            &&& PULSAR_RATES@.contains(hz)
            &&& if hz <= 1000 {
                resp[6] * hz == 1000
            } else {
                resp[6] * 125 == hz
            }
        },
{
    law_code_is_the_period(hz, resp[6]);
    law_pulsar_rates_round_trip(hz, resp[6]);
    assert((0x55 - resp[6]) % 256 == resp[7] <==> (resp[6] + resp[7]) % 256 == 0x55);
    if PULSAR_RATES@.contains(hz) {
        assert(code_of(hz) is Some);
        let code = code_of(hz)->0;
        law_code_is_the_period(hz, code);
        assert(resp[6] * hz == 1000 && code * hz == 1000 ==> resp[6] == code) by (nonlinear_arith)
            requires
                hz >= 1,
        ;
    }
}

/// A frame is the report ID 0x08, the command, the body, zeros up to byte 15, and a
/// checksum that brings the sum of all bytes to 0x55 modulo 256.
pub proof fn law_frame_layout(cmd: u8, body: Seq<u8>)
    ensures
        frame(cmd, body).len() == 17,
        frame(cmd, body)[0] == 0x08,
        frame(cmd, body)[1] == cmd,
        body.len() <= 14 ==> frame(cmd, body).subrange(2, 2 + body.len() as int) == body,
        forall|i: int| 2 <= i < 16 && i < 2 + body.len() ==> #[trigger] frame(cmd, body)[i] == body[i
            - 2],
        forall|i: int| 2 + body.len() <= i < 16 ==> #[trigger] frame(cmd, body)[i] == 0,
        byte_sum(frame(cmd, body)) % 256 == 0x55,
{
    law_frame_sums_to_magic(cmd, body);
    if body.len() <= 14 {
        assert(frame(cmd, body).subrange(2, 2 + body.len() as int) == body);
    }
}

/// An address is sent high byte first: the two bytes are its digits to the base of
/// 256.
pub proof fn law_address_bytes(v: u16)
    ensures
        256 * high_byte(v) + low_byte(v) == v,
{
}

/// The sum of bytes adds up over parts, and is a byte's value for one byte.
pub proof fn law_byte_sum(a: Seq<u8>, b: Seq<u8>, v: u8)
    ensures
        byte_sum(seq![v]) == v,
        byte_sum(a + b) == byte_sum(a) + byte_sum(b),
    decreases b.len(),
{
    assert(seq![v].drop_last() == Seq::<u8>::empty());
    assert(byte_sum(Seq::<u8>::empty()) == 0);
    if b.len() == 0 {
        assert(a + b == a);
    } else {
        law_byte_sum(a, b.drop_last(), v);
        assert((a + b).drop_last() == a + b.drop_last());
    }
}

/// The request that sets a rate is `08 07 00 00 00 02 <code> <0x55 - code>`.
pub proof fn law_set_rate_frame(code: u8)
    ensures
        ({
            let f = set_rate_frame(code);
            &&& f.len() == 17
            &&& f[0] == 0x08
            &&& f[1] == 0x07
            &&& f[2] == 0
            &&& f[3] == 0
            &&& f[4] == 0
            &&& f[5] == 2
            &&& f[6] == code
            &&& (f[6] + f[7]) % 256 == 0x55
            &&& forall|i: int| 8 <= i < 16 ==> #[trigger] f[i] == 0
        }),
{
}

/// A mem-set is acknowledged just where the reply holds, from byte 1 to the end of
/// the data, what the request holds.
pub proof fn law_echo(req: Seq<u8>, resp: Seq<u8>)
    requires
        req.len() == 17,
        req[5] <= 11,
    ensures
        echoes(req, resp) <==> resp.len() >= 6 + req[5] && (forall|i: int|
            1 <= i < 6 + req[5] ==> #[trigger] resp[i] == req[i]),
{
    let n = 6 + req[5] as int;
    if echoes(req, resp) {
        assert forall|i: int| 1 <= i < n implies #[trigger] resp[i] == req[i] by {
            assert(resp.subrange(1, n)[i - 1] == req.subrange(1, n)[i - 1]);
        }
    } else if resp.len() >= n && (forall|i: int| 1 <= i < n ==> #[trigger] resp[i] == req[i]) {
        assert(resp.subrange(1, n) == req.subrange(1, n));
    }
}

/// VAXEE requests are `0E A5 <cmd> 01 01` to read and `0E A5 <cmd> 02 <len> <data>`
/// to write.
pub proof fn law_vaxee_requests(cmd: u8, data: Seq<u8>)
    requires
        data.len() < 256,
    ensures
        read_request(cmd) == seq![0x0eu8, 0xa5, cmd, 1, 1],
        write_request(cmd, data).subrange(0, 4) == seq![0x0eu8, 0xa5, cmd, 2],
        write_request(cmd, data)[4] == data.len(),
        write_request(cmd, data).skip(5) == data,
{
}

/// A VAXEE reply is valid from six bytes on, with a command byte that is not zero,
/// and it acknowledges a write where it also is `.. A5 <cmd> 03 .. 01`.
pub proof fn law_vaxee_replies(resp: Seq<u8>, cmd: u8)
    ensures
        is_valid(resp) <==> resp.len() >= 6 && resp[2] != 0,
        acknowledges(resp, cmd) <==> resp.len() >= 6 && resp[1] == 0xa5 && resp[2] == cmd && resp[3]
            == 3 && resp[5] == 1,
        acknowledges(resp, cmd) && cmd != 0 ==> is_valid(resp),
{
}

/// Indexes count the VAXEE rates from 500 Hz on, each twice the one before.
pub proof fn law_index_doubles_the_rate(index: u8)
    ensures
        rate_of_index(index) is Some <==> 1 <= index <= 5,
        rate_of_index(1) == Some(500u16),
        1 <= index <= 4 ==> rate_of_index((index + 1) as u8)->0 == 2 * rate_of_index(index)->0,
{
    let rates = VAXEE_RATES@;
    assert(rates[0] == 500 && rates[1] == 1000 && rates[2] == 2000 && rates[3] == 4000 && rates[4]
        == 8000);
}

/// A VAXEE battery reply counts in steps of 5%, cut to 100, whatever the charging
/// reply holds; that one tells of charging by any byte but zero.
pub proof fn law_vaxee_battery_reply(bat: Seq<u8>, chg: Seq<u8>, product: Seq<char>)
    ensures
        ({
            let s = vaxee_status(bat, chg, product);
            &&& bat[5] <= 20 ==> s.percent == 5 * bat[5]
            &&& bat[5] > 20 ==> s.percent == 100
            &&& s.charging <==> chg[5] != 0
            &&& s.voltage_mv is None
            &&& s.product == product
            &&& s.polling is None
        }),
{
}

/// A VAXEE mouse's polling state: there is one just where the replies are to the
/// rate (0x07) and the tracking (0x08) command and the index is one of the five.
/// The ceiling is 1 kHz in a "Standard" tracking mode, on a cable and on the 1K
/// receiver; else 8 kHz on the 8K receiver (0x2002) and 4 kHz on the two 4K ones
/// (0x1002, 0x2001). A current rate above it raises it.
pub proof fn law_vaxee_polling_replies(rate: Seq<u8>, tracking: Seq<u8>, pid: u16)
    ensures
        vaxee_polling(rate, tracking, pid) is Some <==> rate[2] == 0x07 && tracking[2] == 0x08 && 1
            <= rate[5] <= 5,
        vaxee_polling(rate, tracking, pid) matches Some(p) ==> {
            let standard = if tracking[4] == 2 {
                tracking[5] == 0
            } else {
                tracking[5] == 2 || tracking[5] == 4
            };
            &&& rate_of_index(rate[5]) == Some(p.hz)
            &&& p.hz <= p.max_hz
            &&& p.hz <= 1000 && (standard || (pid != 0x2002 && pid != 0x2001 && pid != 0x1002))
                ==> p.max_hz == 1000
            &&& p.hz > 1000 && (standard || (pid != 0x2002 && pid != 0x2001 && pid != 0x1002))
                ==> p.max_hz == p.hz
            &&& !standard && pid == 0x2002 ==> p.max_hz == 8000
            &&& !standard && (pid == 0x2001 || pid == 0x1002) && p.hz <= 4000 ==> p.max_hz == 4000
            &&& !standard && (pid == 0x2001 || pid == 0x1002) && p.hz > 4000 ==> p.max_hz == p.hz
            &&& p.rates == VAXEE_RATES@
        },
{
    let rates = VAXEE_RATES@;
    assert(rates[0] == 500 && rates[1] == 1000 && rates[2] == 2000 && rates[3] == 4000 && rates[4]
        == 8000);
}

/// A named product ends with the product string. It is longer just where the
/// string, upper and lower case aside, does not hold the vendor's name, and then
/// starts with it and a space.
pub proof fn law_named_product(vendor: Seq<char>, product: Seq<char>)
    ensures
        ({
            let name = named(vendor, product);
            let held = exists|at: int|
                #![trigger product.subrange(at, at + vendor.len())]
                0 <= at <= product.len() - vendor.len() && ascii_lower_all(
                    product.subrange(at, at + vendor.len()),
                ) == ascii_lower_all(vendor);
            &&& held ==> name == product
            &&& !held ==> name.len() == vendor.len() + 1 + product.len()
            &&& !held ==> name.take(vendor.len() as int) == vendor
            &&& !held ==> name[vendor.len() as int] == ' '
            &&& !held ==> name.skip(vendor.len() as int + 1) == product
        }),
{
    let (low, low_vendor) = (ascii_lower_all(product), ascii_lower_all(vendor));
    assert forall|at: int| 0 <= at <= product.len() - vendor.len() implies low.subrange(
        at,
        at + vendor.len(),
    ) == ascii_lower_all(#[trigger] product.subrange(at, at + vendor.len())) by {
        assert(low.subrange(at, at + vendor.len()) == ascii_lower_all(
            product.subrange(at, at + vendor.len()),
        ));
    }
    if occurs_in(low, low_vendor) {
        let at = choose|at: int| crate::text::occurs_at(low, low_vendor, at);
        assert(ascii_lower_all(product.subrange(at, at + vendor.len())) == low_vendor);
    } else {
        assert forall|at: int| 0 <= at <= product.len() - vendor.len() implies ascii_lower_all(
            #[trigger] product.subrange(at, at + vendor.len()),
        ) != low_vendor by {
            assert(!crate::text::occurs_at(low, low_vendor, at));
        }
        let name = named(vendor, product);
        assert(name.take(vendor.len() as int) == vendor);
        assert(name.skip(vendor.len() as int + 1) == product);
    }
}

} // verus!
