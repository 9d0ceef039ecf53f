//! Finding the mice among the HID interfaces, and the buffers of their reports.
//!
//! The program performs the device calls. These functions say which call comes
//! next and what its outcome means.
use vstd::prelude::*;

use crate::text::{find_null, law_null_position, null_position, utf16_lossy, utf16_text};

verus! {

/// The vendors we know how to talk to; other interfaces are skipped before their
/// capabilities and product string are asked for.
pub const PULSAR_VID: u16 = 0x3710;

pub const VAXEE_VID: u16 = 0x3057;

/// Configuration manager results.
pub const CR_SUCCESS: u32 = 0;

pub const CR_BUFFER_SMALL: u32 = 26;

/// How often the interface list is asked for.
pub const LIST_ATTEMPTS: u8 = 4;

pub const WAIT_OBJECT_0: u32 = 0;

pub const ERROR_IO_PENDING: u32 = 997;

/// One top-level collection of a supported mouse.
pub struct HidDeviceInfo {
    /// Null-terminated wide string.
    pub path: Vec<u16>,
    pub vid: u16,
    pub pid: u16,
    pub usage_page: u16,
    pub usage: u16,
    pub product: String,
    pub input_len: u16,
    pub output_len: u16,
    pub feature_len: u16,
}

/// The meaning of a `HidDeviceInfo`.
#[verifier::ext_equal]
pub struct DeviceView {
    pub path: Seq<u16>,
    pub vid: u16,
    pub pid: u16,
    pub usage_page: u16,
    pub usage: u16,
    pub product: Seq<char>,
    pub input_len: u16,
    pub output_len: u16,
    pub feature_len: u16,
}

impl View for HidDeviceInfo {
    type V = DeviceView;

    open spec fn view(&self) -> DeviceView {
        DeviceView {
            path: self.path@,
            vid: self.vid,
            pid: self.pid,
            usage_page: self.usage_page,
            usage: self.usage,
            product: self.product@,
            input_len: self.input_len,
            output_len: self.output_len,
            feature_len: self.feature_len,
        }
    }
}

impl Clone for HidDeviceInfo {
    fn clone(&self) -> (r: HidDeviceInfo)
        ensures
            r@ == self@,
    {
        let path = self.path.clone();
        assert(path@ == self.path@);
        HidDeviceInfo {
            path,
            vid: self.vid,
            pid: self.pid,
            usage_page: self.usage_page,
            usage: self.usage,
            product: self.product.clone(),
            input_len: self.input_len,
            output_len: self.output_len,
            feature_len: self.feature_len,
        }
    }
}

pub open spec fn device_option(info: Option<HidDeviceInfo>) -> Option<DeviceView> {
    match info {
        Some(info) => Some(info@),
        None => None,
    }
}

// ---------------------------------------------------------------------------
// The list of interfaces
/// Where fetching the interface list stands. Asking for the size and then for the
/// list is racy against device arrival, so it is tried a few times.
pub enum ListState {
    /// Ask for the size of the list.
    Size { attempt: u8 },
    /// Ask for the list itself, in a buffer of `len` units.
    Fill { attempt: u8, len: u32 },
    /// The list, or `None` if it can't be had.
    Done(Option<Vec<u16>>),
}

/// The meaning of a `ListState`.
pub enum ListView {
    Size { attempt: u8 },
    Fill { attempt: u8, len: u32 },
    Done(Option<Seq<u16>>),
}

impl View for ListState {
    type V = ListView;

    open spec fn view(&self) -> ListView {
        match self {
            ListState::Size { attempt } => ListView::Size { attempt: *attempt },
            ListState::Fill { attempt, len } => ListView::Fill { attempt: *attempt, len: *len },
            ListState::Done(list) => ListView::Done(
                match list {
                    Some(list) => Some(list@),
                    None => None,
                },
            ),
        }
    }
}

/// What follows from asking for the size.
pub open spec fn after_size(attempt: u8, cr: u32, len: u32) -> ListView {
    if cr != CR_SUCCESS || len == 0 {
        ListView::Done(None)
    } else {
        ListView::Fill { attempt, len }
    }
}

/// What follows from asking for the list: where the buffer had become too small,
/// another attempt while there is one left.
pub open spec fn after_fill(attempt: u8, cr: u32, list: Seq<u16>) -> ListView {
    if cr == CR_SUCCESS {
        ListView::Done(Some(list))
    } else if cr == CR_BUFFER_SMALL && attempt + 1 < LIST_ATTEMPTS {
        ListView::Size { attempt: (attempt + 1) as u8 }
    } else {
        ListView::Done(None)
    }
}

/// Start fetching the list of present HID interface paths.
pub fn interface_list() -> (r: ListState)
    ensures
        r@ == (ListView::Size { attempt: 0 }),
{
    ListState::Size { attempt: 0 }
}

impl ListState {
    /// Take the outcome of asking for the size; other states are left as they are.
    pub fn sized(self, cr: u32, len: u32) -> (r: ListState)
        ensures
            r@ == (match self@ {
                ListView::Size { attempt } => after_size(attempt, cr, len),
                _ => self@,
            }),
    {
        match self {
            ListState::Size { attempt } => if cr != CR_SUCCESS || len == 0 {
                ListState::Done(None)
            } else {
                ListState::Fill { attempt, len }
            },
            other => other,
        }
    }

    /// Take the outcome of asking for the list; other states are left as they are.
    pub fn filled(self, cr: u32, list: Vec<u16>) -> (r: ListState)
        ensures
            r@ == (match self@ {
                ListView::Fill { attempt, .. } => after_fill(attempt, cr, list@),
                _ => self@,
            }),
    {
        match self {
            ListState::Fill { attempt, .. } => if cr == CR_SUCCESS {
                ListState::Done(Some(list))
            } else if cr == CR_BUFFER_SMALL && attempt < LIST_ATTEMPTS - 1 {
                ListState::Size { attempt: attempt + 1 }
            } else {
                ListState::Done(None)
            },
            other => other,
        }
    }
}

/// What fetching the list ends with, where the calls of attempt `k` give `size(k)`
/// (result and length) and `list(k)` (result and list).
pub open spec fn list_run(
    size: spec_fn(u8) -> (u32, u32),
    list: spec_fn(u8) -> (u32, Seq<u16>),
    attempt: u8,
) -> Option<Seq<u16>>
    decreases LIST_ATTEMPTS - attempt,
{
    match after_size(attempt, size(attempt).0, size(attempt).1) {
        ListView::Fill { .. } => match after_fill(attempt, list(attempt).0, list(attempt).1) {
            ListView::Size { .. } => if attempt + 1 < LIST_ATTEMPTS {
                list_run(size, list, (attempt + 1) as u8)
            } else {
                None
            },
            ListView::Done(r) => r,
            _ => None,
        },
        _ => None,
    }
}

/// Whether an attempt got the size but came too late for the list.
pub open spec fn too_late(size: (u32, u32), list: (u32, Seq<u16>)) -> bool {
    size.0 == CR_SUCCESS && size.1 != 0 && list.0 == CR_BUFFER_SMALL
}

/// The list is that of the first attempt, among the allowed ones, that does not
/// come too late; if that one fails otherwise, or all come too late, there is none.
pub proof fn law_list_of_the_first_timely_attempt(
    size: spec_fn(u8) -> (u32, u32),
    list: spec_fn(u8) -> (u32, Seq<u16>),
    from: u8,
    k: u8,
)
    requires
        from <= k < LIST_ATTEMPTS,
        forall|j: u8| from <= j < k ==> too_late(#[trigger] size(j), list(j)),
        !too_late(size(k), list(k)) || k + 1 == LIST_ATTEMPTS,
    ensures
        list_run(size, list, from) == (if size(k).0 == CR_SUCCESS && size(k).1 != 0 && list(k).0
            == CR_SUCCESS {
            Some(list(k).1)
        } else {
            None
        }),
    decreases k - from,
{
    if from < k {
        assert(too_late(size(from), list(from)));
        law_list_of_the_first_timely_attempt(size, list, (from + 1) as u8, k);
    }
}

/// The non-empty strings of a list in which each ends with a null.
pub open spec fn strings_of(units: Seq<u16>) -> Seq<Seq<u16>>
    decreases units.len(),
    via strings_of_decreases
{
    if units.len() == 0 {
        Seq::empty()
    } else {
        let n = null_position(units);
        let rest = if n < units.len() {
            strings_of(units.skip(n + 1))
        } else {
            Seq::empty()
        };
        if n == 0 {
            rest
        } else {
            seq![units.take(n)] + rest
        }
    }
}

#[via_fn]
proof fn strings_of_decreases(units: Seq<u16>) {
    law_null_position(units);
}

/// The interface paths of a list, each null-terminated.
pub open spec fn paths_of(units: Seq<u16>) -> Seq<Seq<u16>> {
    strings_of(units).map_values(|s: Seq<u16>| s.push(0))
}

pub open spec fn units_of_all(paths: Seq<Vec<u16>>) -> Seq<Seq<u16>> {
    paths.map_values(|p: Vec<u16>| p@)
}

/// Split a list of null-terminated strings, double null at its end, into its
/// null-terminated strings.
pub fn interface_paths(list: &[u16]) -> (r: Vec<Vec<u16>>)
    ensures
        units_of_all(r@) == paths_of(list@),
{
    let mut r: Vec<Vec<u16>> = Vec::new();
    let mut start: usize = 0;
    assert(list@.skip(0) == list@);
    while start < list.len()
        invariant
            start <= list.len(),
            units_of_all(r@) + paths_of(list@.skip(start as int)) == paths_of(list@),
        decreases list.len() - start,
    {
        let ghost done = r@;
        let ghost rest = list@.skip(start as int);
        proof {
            law_null_position(rest);
        }
        let tail = vstd::slice::slice_subrange(list, start, list.len());
        assert(tail@ == rest);
        let n = find_null(tail);
        if n > 0 {
            let mut path = vstd::slice::slice_to_vec(vstd::slice::slice_subrange(tail, 0, n));
            assert(path@ == rest.take(n as int));
            path.push(0);
            r.push(path);
            assert(units_of_all(r@) == units_of_all(done).push(rest.take(n as int).push(0)));
        }
        if n == tail.len() {
            assert(list@.skip(list.len() as int) == Seq::<u16>::empty());
            assert(units_of_all(r@) + paths_of(Seq::<u16>::empty()) == units_of_all(done) + paths_of(
                rest,
            ));
            start = list.len();
        } else {
            assert(rest.skip(n + 1) == list@.skip(start + n + 1));
            assert(units_of_all(r@) + paths_of(rest.skip(n + 1)) == units_of_all(done) + paths_of(
                rest,
            ));
            start = start + n + 1;
        }
    }
    assert(list@.skip(start as int) == Seq::<u16>::empty());
    assert(units_of_all(r@) == paths_of(list@));
    r
}

/// Strings as a list: each null-terminated, and one more null at the end.
pub open spec fn multi_string(strings: Seq<Seq<u16>>) -> Seq<u16>
    decreases strings.len(),
{
    if strings.len() == 0 {
        seq![0u16]
    } else {
        strings[0].push(0) + multi_string(strings.drop_first())
    }
}

proof fn lemma_null_after(s: Seq<u16>, rest: Seq<u16>)
    requires
        forall|i: int| 0 <= i < s.len() ==> #[trigger] s[i] != 0,
    ensures
        null_position(s.push(0) + rest) == s.len(),
    decreases s.len(),
{
    if s.len() > 0 {
        lemma_null_after(s.drop_first(), rest);
        assert(s[0] != 0);
        assert((s.push(0) + rest).skip(1) == s.drop_first().push(0) + rest);
    }
}

/// A list of strings reads back: splitting gives the strings that were put in it.
pub proof fn law_multi_string_reads_back(strings: Seq<Seq<u16>>)
    requires
        forall|k: int| 0 <= k < strings.len() ==> (#[trigger] strings[k]).len() > 0,
        forall|k: int, i: int|
            0 <= k < strings.len() && 0 <= i < strings[k].len() ==> #[trigger] strings[k][i] != 0,
    ensures
        strings_of(multi_string(strings)) == strings,
    decreases strings.len(),
{
    if strings.len() > 0 {
        let s = strings[0];
        let others = strings.drop_first();
        let rest = multi_string(others);
        let all = s.push(0) + rest;
        lemma_null_after(s, rest);
        assert forall|k: int, i: int|
            0 <= k < others.len() && 0 <= i < others[k].len() implies #[trigger] others[k][i]
            != 0 by {
            assert(strings[k + 1][i] != 0);
        }
        assert forall|k: int| 0 <= k < others.len() implies (#[trigger] others[k]).len() > 0 by {
            assert(strings[k + 1].len() > 0);
        }
        law_multi_string_reads_back(others);
        assert(all.take(s.len() as int) == s);
        assert(all.skip(s.len() as int + 1) == rest);
        assert(strings_of(all) == seq![s] + others);
        assert(strings == seq![s] + others);
    } else {
        let end = multi_string(strings);
        assert(null_position(end) == 0);
        assert(end.skip(1) == Seq::<u16>::empty());
        assert(strings_of(end.skip(1)) == Seq::<Seq<u16>>::empty());
        assert(strings_of(end) == strings);
    }
}

// ---------------------------------------------------------------------------
// Probing one interface
/// The capabilities of a collection.
#[derive(Clone, Copy, Debug, PartialEq, Eq, Structural)]
pub struct Caps {
    pub usage_page: u16,
    pub usage: u16,
    pub input_len: u16,
    pub output_len: u16,
    pub feature_len: u16,
}

/// Where probing an interface stands: what to ask it for next.
pub enum ProbeState {
    /// Open it for its metadata alone, which works even for keyboard and mouse
    /// collections that deny read and write.
    Open { path: Vec<u16> },
    /// Ask for its vendor and product ID.
    Attributes { path: Vec<u16> },
    /// Ask for its capabilities.
    Caps { path: Vec<u16>, vid: u16, pid: u16 },
    /// Ask for its product string.
    Name { path: Vec<u16>, vid: u16, pid: u16, caps: Caps },
    /// The device, or `None` if the vendor is unknown or the collection has no
    /// usable capabilities.
    Done(Option<HidDeviceInfo>),
}

/// What came of asking.
pub enum ProbeEvent {
    Opened(bool),
    Attributes(Option<(u16, u16)>),
    Caps(Option<Caps>),
    Name(Option<Vec<u16>>),
}

/// The meaning of a `ProbeState`.
pub enum ProbeView {
    Open { path: Seq<u16> },
    Attributes { path: Seq<u16> },
    Caps { path: Seq<u16>, vid: u16, pid: u16 },
    Name { path: Seq<u16>, vid: u16, pid: u16, caps: Caps },
    Done(Option<DeviceView>),
}

/// The meaning of a `ProbeEvent`.
pub enum ProbeEventView {
    Opened(bool),
    Attributes(Option<(u16, u16)>),
    Caps(Option<Caps>),
    Name(Option<Seq<u16>>),
}

impl View for ProbeState {
    type V = ProbeView;

    open spec fn view(&self) -> ProbeView {
        match self {
            ProbeState::Open { path } => ProbeView::Open { path: path@ },
            ProbeState::Attributes { path } => ProbeView::Attributes { path: path@ },
            ProbeState::Caps { path, vid, pid } => ProbeView::Caps {
                path: path@,
                vid: *vid,
                pid: *pid,
            },
            ProbeState::Name { path, vid, pid, caps } => ProbeView::Name {
                path: path@,
                vid: *vid,
                pid: *pid,
                caps: *caps,
            },
            ProbeState::Done(info) => ProbeView::Done(device_option(*info)),
        }
    }
}

impl View for ProbeEvent {
    type V = ProbeEventView;

    open spec fn view(&self) -> ProbeEventView {
        match self {
            ProbeEvent::Opened(ok) => ProbeEventView::Opened(*ok),
            ProbeEvent::Attributes(ids) => ProbeEventView::Attributes(*ids),
            ProbeEvent::Caps(caps) => ProbeEventView::Caps(*caps),
            ProbeEvent::Name(name) => ProbeEventView::Name(
                match name {
                    Some(name) => Some(name@),
                    None => None,
                },
            ),
        }
    }
}

pub open spec fn known_vendor(vid: u16) -> bool {
    vid == PULSAR_VID || vid == VAXEE_VID
}

/// The product string of a buffer, up to its first null; none is an empty one.
pub open spec fn product_name(name: Option<Seq<u16>>) -> Seq<char> {
    match name {
        Some(units) => utf16_text(units.take(null_position(units))),
        None => Seq::empty(),
    }
}

/// The device at a path, by what it answered.
pub open spec fn device_of(
    path: Seq<u16>,
    vid: u16,
    pid: u16,
    caps: Caps,
    name: Option<Seq<u16>>,
) -> DeviceView {
    DeviceView {
        path,
        vid,
        pid,
        usage_page: caps.usage_page,
        usage: caps.usage,
        product: product_name(name),
        input_len: caps.input_len,
        output_len: caps.output_len,
        feature_len: caps.feature_len,
    }
}

/// The state after an event. An event that was not asked for changes nothing.
pub open spec fn probe_next(state: ProbeView, event: ProbeEventView) -> ProbeView {
    match (state, event) {
        (ProbeView::Open { path }, ProbeEventView::Opened(ok)) => if ok {
            ProbeView::Attributes { path }
        } else {
            ProbeView::Done(None)
        },
        (ProbeView::Attributes { path }, ProbeEventView::Attributes(ids)) => match ids {
            Some((vid, pid)) => if known_vendor(vid) {
                ProbeView::Caps { path, vid, pid }
            } else {
                ProbeView::Done(None)
            },
            None => ProbeView::Done(None),
        },
        (ProbeView::Caps { path, vid, pid }, ProbeEventView::Caps(caps)) => match caps {
            Some(caps) => ProbeView::Name { path, vid, pid, caps },
            None => ProbeView::Done(None),
        },
        (ProbeView::Name { path, vid, pid, caps }, ProbeEventView::Name(name)) => ProbeView::Done(
            Some(device_of(path, vid, pid, caps, name)),
        ),
        _ => state,
    }
}

/// Start probing the interface at a null-terminated path.
pub fn probe(path: Vec<u16>) -> (r: ProbeState)
    ensures
        r@ == (ProbeView::Open { path: path@ }),
{
    ProbeState::Open { path }
}

impl ProbeState {
    /// Take what came of asking.
    pub fn step(self, event: ProbeEvent) -> (r: ProbeState)
        ensures
            r@ == probe_next(self@, event@),
    {
        match (self, event) {
            (ProbeState::Open { path }, ProbeEvent::Opened(ok)) => if ok {
                ProbeState::Attributes { path }
            } else {
                ProbeState::Done(None)
            },
            (ProbeState::Attributes { path }, ProbeEvent::Attributes(ids)) => match ids {
                Some((vid, pid)) => if vid == PULSAR_VID || vid == VAXEE_VID {
                    ProbeState::Caps { path, vid, pid }
                } else {
                    ProbeState::Done(None)
                },
                None => ProbeState::Done(None),
            },
            (ProbeState::Caps { path, vid, pid }, ProbeEvent::Caps(caps)) => match caps {
                Some(caps) => ProbeState::Name { path, vid, pid, caps },
                None => ProbeState::Done(None),
            },
            (ProbeState::Name { path, vid, pid, caps }, ProbeEvent::Name(name)) => {
                let product = match &name {
                    Some(units) => {
                        proof {
                            law_null_position(units@);
                        }
                        let n = find_null(units.as_slice());
                        utf16_lossy(vstd::slice::slice_subrange(units.as_slice(), 0, n))
                    },
                    None => String::new(),
                };
                assert(product@ == product_name(
                    match name {
                        Some(units) => Some(units@),
                        None => None,
                    },
                ));
                ProbeState::Done(
                    Some(
                        HidDeviceInfo {
                            path,
                            vid,
                            pid,
                            usage_page: caps.usage_page,
                            usage: caps.usage,
                            product,
                            input_len: caps.input_len,
                            output_len: caps.output_len,
                            feature_len: caps.feature_len,
                        },
                    ),
                )
            },
            (state, _) => state,
        }
    }
}

/// What probing an interface finds, by its answers.
pub open spec fn probe_result(
    path: Seq<u16>,
    opened: bool,
    ids: Option<(u16, u16)>,
    caps: Option<Caps>,
    name: Option<Seq<u16>>,
) -> Option<DeviceView> {
    if opened && ids is Some && known_vendor((ids->0).0) && caps is Some {
        Some(device_of(path, (ids->0).0, (ids->0).1, caps->0, name))
    } else {
        None
    }
}

/// Probing finds a device just where the interface opens, is of a known vendor
/// and has capabilities. A missing product string does not stand in its way, and
/// an interface of another vendor is asked neither for it nor for capabilities.
pub proof fn law_probe_finds_known_devices(
    path: Seq<u16>,
    opened: bool,
    ids: Option<(u16, u16)>,
    caps: Option<Caps>,
    name: Option<Seq<u16>>,
)
    ensures
        ({
            let s1 = probe_next(ProbeView::Open { path }, ProbeEventView::Opened(opened));
            let s2 = probe_next(s1, ProbeEventView::Attributes(ids));
            let s3 = probe_next(s2, ProbeEventView::Caps(caps));
            let s4 = probe_next(s3, ProbeEventView::Name(name));
            &&& s4 == ProbeView::Done(probe_result(path, opened, ids, caps, name))
            &&& ids is Some && !known_vendor((ids->0).0) ==> s2 == ProbeView::Done(None)
        }),
{
}

// ---------------------------------------------------------------------------
// Enumeration
/// The interfaces still to probe, and the devices found so far.
pub struct Enumeration {
    pub paths: Vec<Vec<u16>>,
    pub found: Vec<HidDeviceInfo>,
}

/// The meaning of an `Enumeration`.
#[verifier::ext_equal]
pub struct EnumerationView {
    pub paths: Seq<Seq<u16>>,
    pub found: Seq<DeviceView>,
}

pub open spec fn devices_view(devices: Seq<HidDeviceInfo>) -> Seq<DeviceView> {
    devices.map_values(|d: HidDeviceInfo| d@)
}

impl View for Enumeration {
    type V = EnumerationView;

    open spec fn view(&self) -> EnumerationView {
        EnumerationView {
            paths: units_of_all(self.paths@),
            found: devices_view(self.found@),
        }
    }
}

/// The enumeration after its next interface was probed.
pub open spec fn after_probe(e: EnumerationView, info: Option<DeviceView>) -> EnumerationView {
    EnumerationView {
        paths: if e.paths.len() > 0 {
            e.paths.drop_first()
        } else {
            e.paths
        },
        found: match info {
            Some(info) => e.found.push(info),
            None => e.found,
        },
    }
}

/// An enumeration before its first probe.
pub open spec fn enumeration_start(list: Option<Seq<u16>>) -> EnumerationView {
    EnumerationView {
        paths: match list {
            Some(list) => paths_of(list),
            None => Seq::empty(),
        },
        found: Seq::empty(),
    }
}

/// Start enumerating the supported devices among the interfaces of a list; without
/// a list there are none.
pub fn enumerate(list: Option<Vec<u16>>) -> (r: Enumeration)
    ensures
        r@ == enumeration_start(
            match list {
                Some(list) => Some(list@),
                None => None,
            },
        ),
{
    let found: Vec<HidDeviceInfo> = Vec::new();
    assert(devices_view(found@) == Seq::<DeviceView>::empty());
    match list {
        Some(list) => Enumeration { paths: interface_paths(list.as_slice()), found },
        None => {
            let paths: Vec<Vec<u16>> = Vec::new();
            assert(units_of_all(paths@) == Seq::<Seq<u16>>::empty());
            Enumeration { paths, found }
        },
    }
}

impl Enumeration {
    /// The null-terminated path to probe next, `None` once all were.
    pub fn next_path(&self) -> (r: Option<Vec<u16>>)
        ensures
            match r {
                Some(path) => self@.paths.len() > 0 && path@ == self@.paths[0],
                None => self@.paths.len() == 0,
            },
    {
        if self.paths.len() == 0 {
            None
        } else {
            let path = self.paths[0].clone();
            assert(path@ == self.paths@[0]@);
            Some(path)
        }
    }

    /// Take what probing the next interface found.
    pub fn probed(&mut self, info: Option<HidDeviceInfo>)
        ensures
            final(self)@ == after_probe(old(self)@, device_option(info)),
    {
        let ghost before = *self;
        if self.paths.len() > 0 {
            self.paths.remove(0);
        }
        assert(self@.paths == after_probe(before@, None).paths);
        match info {
            Some(info) => {
                self.found.push(info);
                assert(self@.found == before@.found.push(info@));
            },
            None => {},
        }
    }
}

/// What the enumeration ends with, where `probe` says what each path holds.
pub open spec fn enumeration_run(
    e: EnumerationView,
    probe: spec_fn(Seq<u16>) -> Option<DeviceView>,
) -> Seq<DeviceView>
    decreases e.paths.len(),
{
    if e.paths.len() == 0 {
        e.found
    } else {
        enumeration_run(after_probe(e, probe(e.paths[0])), probe)
    }
}

/// The devices that `probe` finds at `paths`, in their order.
pub open spec fn found_at(
    paths: Seq<Seq<u16>>,
    probe: spec_fn(Seq<u16>) -> Option<DeviceView>,
) -> Seq<DeviceView> {
    paths.map_values(probe).filter(|d: Option<DeviceView>| d is Some).map_values(
        |d: Option<DeviceView>| d->0,
    )
}

/// Enumerating gives the devices at the listed paths, each once and in the list's
/// order, and no others.
pub proof fn law_enumeration_finds_all(
    e: EnumerationView,
    probe: spec_fn(Seq<u16>) -> Option<DeviceView>,
)
    ensures
        enumeration_run(e, probe) == e.found + found_at(e.paths, probe),
    decreases e.paths.len(),
{
    let some = |d: Option<DeviceView>| d is Some;
    if e.paths.len() == 0 {
        assert(e.paths.map_values(probe) == Seq::<Option<DeviceView>>::empty());
        assert(found_at(e.paths, probe) == Seq::<DeviceView>::empty()) by {
            reveal(Seq::filter);
        }
    } else {
        let first = probe(e.paths[0]);
        let next = after_probe(e, first);
        law_enumeration_finds_all(next, probe);
        let rest = next.paths.map_values(probe);
        assert(e.paths.map_values(probe) == seq![first] + rest);
        Seq::filter_distributes_over_add(seq![first], rest, some);
        assert(seq![first].filter(some) == (if first is Some {
            seq![first]
        } else {
            Seq::empty()
        })) by {
            reveal(Seq::filter);
            reveal_with_fuel(Seq::filter, 2);
            assert(seq![first].drop_last() == Seq::<Option<DeviceView>>::empty());
        }
        assert(e.found + found_at(e.paths, probe) == next.found + found_at(next.paths, probe));
    }
}

// ---------------------------------------------------------------------------
// Report buffers
/// The longer of a collection's report length and the data's.
pub open spec fn report_len(collection_len: int, data_len: int) -> int {
    if collection_len >= data_len {
        collection_len
    } else {
        data_len
    }
}

/// Data padded with zeros to a collection's report length.
pub open spec fn report_of(collection_len: u16, data: Seq<u8>) -> Seq<u8> {
    Seq::new(
        report_len(collection_len as int, data.len() as int) as nat,
        |i: int|
            if i < data.len() {
                data[i]
            } else {
                0u8
            },
    )
}

/// A report to send: `data`, whose first byte is the report ID, padded with zeros
/// to the collection's report length.
pub fn report_buffer(collection_len: u16, data: &[u8]) -> (r: Vec<u8>)
    requires
        data@.len() <= 0xffff,
    ensures
        r@ == report_of(collection_len, data@),
{
    let mut r: Vec<u8> = vstd::slice::slice_to_vec(data);
    if r.len() < collection_len as usize {
        r.resize(collection_len as usize, 0);
    }
    r
}

/// A buffer for one input report of a collection.
pub fn input_buffer(input_len: u16) -> (r: Vec<u8>)
    ensures
        r@ == Seq::new(input_len as nat, |i: int| 0u8),
{
    vec![0u8; input_len as usize]
}

/// The buffer to fetch a feature report with.
pub open spec fn feature_of(feature_len: u16, report_id: u8) -> Option<Seq<u8>> {
    if feature_len == 0 {
        None
    } else {
        Some(
            Seq::new(
                feature_len as nat,
                |i: int|
                    if i == 0 {
                        report_id
                    } else {
                        0u8
                    },
            ),
        )
    }
}

/// A buffer for the feature report `report_id`, `None` if the collection has no
/// feature reports.
pub fn feature_buffer(feature_len: u16, report_id: u8) -> (r: Option<Vec<u8>>)
    ensures
        match r {
            Some(buf) => feature_of(feature_len, report_id) == Some(buf@),
            None => feature_of(feature_len, report_id) is None,
        },
{
    if feature_len == 0 {
        return None;
    }
    let mut buf = vec![0u8; feature_len as usize];
    buf[0] = report_id;
    assert(Some(buf@) == feature_of(feature_len, report_id)) by {
        assert(buf@ == feature_of(feature_len, report_id)->0);
    }
    Some(buf)
}

/// Whether an overlapped operation is under way.
pub open spec fn under_way(ok: i32, error: u32) -> bool {
    ok != 0 || error == ERROR_IO_PENDING
}

/// Whether an overlapped operation is under way: it succeeded or is pending.
pub fn io_queued(ok: i32, error: u32) -> (r: bool)
    ensures
        r == under_way(ok, error),
{
    ok != 0 || error == ERROR_IO_PENDING
}

/// Whether waiting for an overlapped operation ended without it. It then has to
/// be cancelled, and the cancellation awaited, before its buffer is given up.
pub fn must_cancel(wait: u32) -> (r: bool)
    ensures
        r <==> wait != WAIT_OBJECT_0,
{
    wait != WAIT_OBJECT_0
}

/// The bytes that an overlapped operation moved.
pub open spec fn moved(wait: u32, ok: i32, count: u32) -> Option<u32> {
    if wait == WAIT_OBJECT_0 && ok != 0 {
        Some(count)
    } else {
        None
    }
}

/// The bytes that an overlapped operation moved, by how waiting for it ended, and
/// by the status and count of its result. `None` on timeout or failure.
pub fn finish_overlapped(wait: u32, ok: i32, count: u32) -> (r: Option<u32>)
    ensures
        r == moved(wait, ok, count),
{
    if wait == WAIT_OBJECT_0 && ok != 0 {
        Some(count)
    } else {
        None
    }
}

/// The report in a buffer that received `count` bytes: the buffer's front.
pub open spec fn report_in(buf: Seq<u8>, count: int) -> Seq<u8> {
    if count < buf.len() {
        buf.take(count)
    } else {
        buf
    }
}

/// The report in a buffer that received `count` bytes.
pub fn received(buf: Vec<u8>, count: u32) -> (r: Vec<u8>)
    ensures
        r@ == report_in(buf@, count as int),
{
    let mut buf = buf;
    buf.truncate(count as usize);
    buf
}

// ---------------------------------------------------------------------------
// What is split, asked and sent
/// A list splits at its nulls: what comes before one and what comes behind it split
/// on their own, nothing splits into nothing, and units without a null are one
/// string.
pub proof fn law_list_splits_at_nulls(a: Seq<u16>, b: Seq<u16>, s: Seq<u16>)
    requires
        s.len() > 0,
        forall|i: int| 0 <= i < s.len() ==> #[trigger] s[i] != 0,
    ensures
        strings_of(Seq::empty()) == Seq::<Seq<u16>>::empty(),
        strings_of(s) == seq![s],
        strings_of(a.push(0) + b) == strings_of(a) + strings_of(b),
    decreases a.len(),
{
    let all = a.push(0) + b;
    law_null_position(s);
    assert(null_position(s) == s.len()) by {
        if null_position(s) < s.len() {
            assert(s[null_position(s)] != 0);
        }
    }
    assert(s.take(s.len() as int) == s);
    assert(strings_of(s) == seq![s]);
    law_null_position(a);
    let n = null_position(a);
    lemma_null_in_front(a, b);
    if n == a.len() {
        assert(all.take(n) == a);
        assert(all.skip(n + 1) == b);
        if a.len() == 0 {
            assert(strings_of(a) + strings_of(b) == strings_of(b));
        } else {
            assert(a.take(n) == a);
            assert(strings_of(a) == seq![a]);
            assert(strings_of(all) == seq![a] + strings_of(b));
        }
    } else {
        let rest = a.skip(n + 1);
        law_list_splits_at_nulls(rest, b, s);
        assert(all.skip(n + 1) == rest.push(0) + b);
        assert(all.take(n) == a.take(n));
        if n == 0 {
            assert(strings_of(all) == strings_of(a) + strings_of(b));
        } else {
            assert(strings_of(all) == seq![a.take(n)] + (strings_of(rest) + strings_of(b)));
            assert(strings_of(all) == strings_of(a) + strings_of(b));
        }
    }
}

proof fn lemma_null_in_front(a: Seq<u16>, b: Seq<u16>)
    ensures
        null_position(a.push(0) + b) == null_position(a),
    decreases a.len(),
{
    let all = a.push(0) + b;
    if a.len() > 0 && a[0] != 0 {
        lemma_null_in_front(a.skip(1), b);
        assert(all.skip(1) == a.skip(1).push(0) + b);
        assert(all[0] == a[0]);
    } else {
        assert(all[0] == 0);
    }
}

/// A path is a string of the list with a null behind it.
pub proof fn law_paths_are_terminated(units: Seq<u16>, i: int)
    requires
        0 <= i < strings_of(units).len(),
    ensures
        paths_of(units).len() == strings_of(units).len(),
        paths_of(units)[i].last() == 0,
        paths_of(units)[i].drop_last() == strings_of(units)[i],
{
    assert(paths_of(units)[i] == strings_of(units)[i].push(0));
    assert(strings_of(units)[i].push(0).drop_last() == strings_of(units)[i]);
}

/// An interface is a device just where it opens, its vendor is 0x3710 or 0x3057 and
/// it has capabilities. The device then holds its path and what it answered; its
/// product string ends before the first null.
pub proof fn law_probed_device(
    path: Seq<u16>,
    opened: bool,
    ids: Option<(u16, u16)>,
    caps: Option<Caps>,
    name: Option<Seq<u16>>,
)
    ensures
        ({
            let s1 = probe_next(ProbeView::Open { path }, ProbeEventView::Opened(opened));
            let s2 = probe_next(s1, ProbeEventView::Attributes(ids));
            let s3 = probe_next(s2, ProbeEventView::Caps(caps));
            let s4 = probe_next(s3, ProbeEventView::Name(name));
            let found = opened && ids is Some && ((ids->0).0 == 0x3710 || (ids->0).0 == 0x3057)
                && caps is Some;
            &&& !found ==> s4 == ProbeView::Done(None)
            &&& found ==> {
                &&& s4 matches ProbeView::Done(Some(d))
                &&& d.path == path
                &&& d.vid == (ids->0).0
                &&& d.pid == (ids->0).1
                &&& d.usage_page == caps->0.usage_page
                &&& d.usage == caps->0.usage
                &&& d.input_len == caps->0.input_len
                &&& d.output_len == caps->0.output_len
                &&& d.feature_len == caps->0.feature_len
                &&& name is None ==> d.product == Seq::<char>::empty()
                &&& name is Some ==> d.product == utf16_text(
                    name->0.take(null_position(name->0)),
                )
            }
            &&& ids is Some && (ids->0).0 != 0x3710 && (ids->0).0 != 0x3057 ==> !(s2 is Caps) && !(
            s2 is Name)
        }),
{
}

/// An event that was not asked for changes nothing in probing.
pub proof fn law_probe_waits(state: ProbeView, event: ProbeEventView)
    ensures
        state is Open && !(event is Opened) ==> probe_next(state, event) == state,
        state is Attributes && !(event is Attributes) ==> probe_next(state, event) == state,
        state is Caps && !(event is Caps) ==> probe_next(state, event) == state,
        state is Name && !(event is Name) ==> probe_next(state, event) == state,
        state is Done ==> probe_next(state, event) == state,
{
}

/// The list is asked for at most four times; only a buffer that became too small
/// (26) is worth another attempt, and an empty list or any other failure is none.
pub proof fn law_list_steps(attempt: u8, cr: u32, len: u32, list: Seq<u16>)
    ensures
        cr == 0 && len > 0 ==> after_size(attempt, cr, len) == (ListView::Fill { attempt, len }),
        cr != 0 || len == 0 ==> after_size(attempt, cr, len) == ListView::Done(None),
        cr == 0 ==> after_fill(attempt, cr, list) == ListView::Done(Some(list)),
        cr == 26 && attempt < 3 ==> after_fill(attempt, cr, list) == (ListView::Size {
            attempt: (attempt + 1) as u8,
        }),
        cr != 0 && (cr != 26 || attempt >= 3) ==> after_fill(attempt, cr, list) == ListView::Done(
            None,
        ),
{
}

/// A report holds the data in front and zeros behind, and is as long as the longer
/// of the two lengths.
pub proof fn law_report(collection_len: u16, data: Seq<u8>, i: int)
    ensures
        report_of(collection_len, data).len() >= collection_len,
        report_of(collection_len, data).len() >= data.len(),
        report_of(collection_len, data).len() == collection_len || report_of(
            collection_len,
            data,
        ).len() == data.len(),
        0 <= i < data.len() ==> report_of(collection_len, data)[i] == data[i],
        data.len() <= i < report_of(collection_len, data).len() ==> report_of(
            collection_len,
            data,
        )[i] == 0,
{
}

/// Enumerating a list gives, from the first probe to the last, the devices at its
/// null-terminated strings, in their order; without a list there are none.
pub proof fn law_list_is_enumerated(
    list: Seq<u16>,
    probe: spec_fn(Seq<u16>) -> Option<DeviceView>,
)
    ensures
        enumeration_run(enumeration_start(Some(list)), probe) == strings_of(list).map_values(
            |s: Seq<u16>| probe(s.push(0)),
        ).filter(|d: Option<DeviceView>| d is Some).map_values(|d: Option<DeviceView>| d->0),
        enumeration_run(enumeration_start(None), probe) == Seq::<DeviceView>::empty(),
{
    law_enumeration_finds_all(enumeration_start(Some(list)), probe);
    assert(paths_of(list).map_values(probe) == strings_of(list).map_values(
        |s: Seq<u16>| probe(s.push(0)),
    ));
    assert(Seq::<DeviceView>::empty() + found_at(paths_of(list), probe) == found_at(
        paths_of(list),
        probe,
    ));
}

/// A feature report is fetched in a buffer of the collection's length that starts
/// with the report's ID and is zero behind it; a collection without feature reports
/// has none. What was received is the front of the buffer.
pub proof fn law_buffers(feature_len: u16, report_id: u8, i: int, buf: Seq<u8>, count: int)
    requires
        0 <= count,
    ensures
        feature_of(0, report_id) is None,
        feature_len > 0 ==> (feature_of(feature_len, report_id) matches Some(b) && b.len()
            == feature_len && b[0] == report_id && (0 < i < feature_len ==> b[i] == 0)),
        report_in(buf, count).is_prefix_of(buf),
        count <= buf.len() ==> report_in(buf, count).len() == count,
        count >= buf.len() ==> report_in(buf, count) == buf,
{
}

/// An operation is under way where it succeeded or is pending (997). It moved its
/// bytes just where the wait ended with it (0) and its result is a success.
pub proof fn law_overlapped(ok: i32, error: u32, wait: u32, count: u32)
    ensures
        under_way(0, error) <==> error == 997,
        ok != 0 ==> under_way(ok, error),
        moved(wait, ok, count) is Some <==> wait == 0 && ok != 0,
        moved(wait, ok, count) is Some ==> moved(wait, ok, count) == Some(count),
{
}

} // verus!
