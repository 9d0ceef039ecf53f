use mousebatt::hid::{HidDeviceInfo, PULSAR_VID, VAXEE_VID};
use mousebatt::protocol::{
    find_pulsar, find_vaxee, pulsar_frame, pulsar_info_request, pulsar_mem_get, pulsar_mem_set,
    with_vendor, ReadResult, PULSAR_RATES, VAXEE_RATES,
};
use mousebatt::session::{
    pulsar_xact, read_battery, set_polling, vaxee_xact, Action, Event, PulsarXact, ReadState,
    SetState, VaxeeXact, Vendor,
};

fn device(vid: u16, usage_page: u16, pid: u16, product: &str) -> HidDeviceInfo {
    HidDeviceInfo {
        path: vec![0x5c, pid, 0],
        vid,
        pid,
        usage_page,
        usage: 1,
        product: product.to_string(),
        input_len: 17,
        output_len: 17,
        feature_len: 64,
    }
}

fn pulsar() -> HidDeviceInfo {
    device(PULSAR_VID, 0xff02, 0x5406, "8K Dongle Gen.2")
}

fn vaxee() -> HidDeviceInfo {
    device(VAXEE_VID, 0xff05, 0x2001, "VAXEE VXD02")
}

fn power_reply(percent: u8) -> Vec<u8> {
    let mut r = vec![0u8; 17];
    r[0] = 0x08;
    r[1] = 0x04;
    r[6] = percent;
    r[8] = 0x0f;
    r[9] = 0x48;
    r
}

fn link_reply(link: u8) -> Vec<u8> {
    let mut r = vec![0u8; 17];
    r[0] = 0x08;
    r[1] = 0x01;
    r[12] = link;
    r
}

fn rate_reply(code: u8) -> Vec<u8> {
    let mut r = vec![0x08, 0x08, 0, 0, 0, 2, code, 0x55u8.wrapping_sub(code)];
    r.resize(17, 0);
    r
}

fn feature_reply(cmd: u8, rw: u8, len: u8, value: u8) -> Vec<u8> {
    let mut r = vec![0u8; 64];
    r[..6].copy_from_slice(&[0x0e, 0xa5, cmd, rw, len, value]);
    r
}

/// Runs a reading against replies, `None` for a mouse that keeps silent, and gives
/// the requests and sleeps it made.
fn run_read(
    devices: &[HidDeviceInfo],
    opens: bool,
    replies: &[Option<Vec<u8>>],
) -> (ReadResult, Vec<Vec<u8>>, u32) {
    let mut state = read_battery(devices);
    let mut replies = replies.iter();
    let mut requests = Vec::new();
    let mut slept = 0;
    loop {
        let event = match state.action() {
            Action::Open => Event::Opened(opens),
            Action::PulsarExchange(req) => {
                requests.push(req.to_vec());
                Event::Reply(replies.next().expect("a reply is left").clone())
            }
            Action::VaxeeExchange(req) => {
                requests.push(req);
                Event::Reply(replies.next().expect("a reply is left").clone())
            }
            Action::Sleep(ms) => {
                slept += ms;
                Event::Slept
            }
            Action::Finish => break,
        };
        state = state.step(event);
    }
    assert!(replies.next().is_none(), "all replies are used");
    match state {
        ReadState::Done(result) => (result, requests, slept),
        _ => unreachable!(),
    }
}

fn run_set(
    devices: &[HidDeviceInfo],
    hz: u16,
    opens: bool,
    replies: &[Option<Vec<u8>>],
) -> (bool, Vec<Vec<u8>>, u32) {
    let mut state = set_polling(devices, hz);
    let mut replies = replies.iter();
    let mut requests = Vec::new();
    let mut slept = 0;
    loop {
        let event = match state.action() {
            Action::Open => Event::Opened(opens),
            Action::PulsarExchange(req) => {
                requests.push(req.to_vec());
                Event::Reply(replies.next().expect("a reply is left").clone())
            }
            Action::VaxeeExchange(req) => {
                requests.push(req);
                Event::Reply(replies.next().expect("a reply is left").clone())
            }
            Action::Sleep(ms) => {
                slept += ms;
                Event::Slept
            }
            Action::Finish => break,
        };
        state = state.step(event);
    }
    assert!(replies.next().is_none(), "all replies are used");
    match state {
        SetState::Done(acked) => (acked, requests, slept),
        _ => unreachable!(),
    }
}

#[test]
fn devices_are_matched_by_vendor_and_usage_page() {
    let devices = [
        device(PULSAR_VID, 0x0001, 1, "keyboard part"),
        device(VAXEE_VID, 0xff02, 2, "other page"),
        vaxee(),
        device(0x046d, 0xff02, 3, "other vendor"),
        pulsar(),
        device(PULSAR_VID, 0xff02, 4, "second"),
    ];
    assert_eq!(find_pulsar(&devices).map(|d| d.pid), Some(0x5406));
    assert_eq!(find_vaxee(&devices).map(|d| d.pid), Some(0x2001));
    assert!(find_pulsar(&devices[..4]).is_none());
    assert!(find_vaxee(&devices[..2]).is_none());
}

#[test]
fn product_is_prefixed_unless_it_names_the_vendor() {
    assert_eq!(with_vendor("Pulsar", &pulsar()).product, "Pulsar 8K Dongle Gen.2");
    let named = device(PULSAR_VID, 0xff02, 1, "PULSAR X3");
    let renamed = with_vendor("Pulsar", &named);
    assert_eq!(renamed.product, "PULSAR X3");
    assert_eq!((renamed.path, renamed.pid, renamed.feature_len), (named.path, 1, 64));
    assert_eq!(with_vendor("VAXEE", &vaxee()).product, "VAXEE VXD02");
}

#[test]
fn pulsar_comes_before_vaxee() {
    match read_battery(&[vaxee(), pulsar()]) {
        ReadState::Open { vendor, info } => {
            assert_eq!(vendor, Vendor::Pulsar);
            assert_eq!(info.product, "Pulsar 8K Dongle Gen.2");
            assert_eq!(info.path, [0x5c, 0x5406, 0]);
        }
        _ => panic!("nothing to open"),
    }
    match set_polling(&[vaxee(), pulsar()], 1000) {
        SetState::Open { vendor, value, .. } => assert_eq!((vendor, value), (Vendor::Pulsar, 1)),
        _ => panic!("nothing to open"),
    }
    assert!(matches!(read_battery(&[]), ReadState::Done(ReadResult::NoDevice)));
    assert!(matches!(set_polling(&[], 1000), SetState::Done(false)));
}

#[test]
fn pulsar_is_read_with_its_polling_state() {
    let replies = [Some(power_reply(73)), Some(link_reply(5)), Some(rate_reply(0x20))];
    let (result, requests, slept) = run_read(&[pulsar()], true, &replies);
    let ReadResult::Status(s) = result else {
        panic!("not read");
    };
    assert_eq!((s.percent, s.charging, s.voltage_mv), (73, false, Some(3912)));
    assert_eq!(s.product, "Pulsar 8K Dongle Gen.2");
    let p = s.polling.unwrap();
    assert_eq!((p.hz, p.max_hz, p.rates), (4000, 8000, &PULSAR_RATES[..]));
    assert_eq!(
        requests,
        [
            pulsar_frame(0x04, &[]).to_vec(),
            pulsar_info_request().to_vec(),
            pulsar_mem_get(0, 2).to_vec()
        ]
    );
    assert_eq!(slept, 0);
}

#[test]
fn pulsar_wakes_on_the_second_attempt() {
    let replies = [None, Some(power_reply(20)), None];
    let (result, requests, _) = run_read(&[pulsar()], true, &replies);
    let ReadResult::Status(s) = result else {
        panic!("not read");
    };
    assert_eq!((s.percent, s.polling), (20, None));
    assert_eq!(requests.len(), 3);
}

#[test]
fn pulsar_without_a_sensible_reply_is_not_responding() {
    let (result, ..) = run_read(&[pulsar()], true, &[None, None]);
    assert!(matches!(result, ReadResult::NoResponse(p) if p == "Pulsar 8K Dongle Gen.2"));
    // A reply that is no battery reply is not asked for again.
    let (result, requests, _) = run_read(&[pulsar()], true, &[Some(power_reply(5)[..9].to_vec())]);
    assert!(matches!(result, ReadResult::NoResponse(_)));
    assert_eq!(requests.len(), 1);
    let (result, requests, _) = run_read(&[pulsar()], false, &[]);
    assert!(matches!(result, ReadResult::NoResponse(_)));
    assert!(requests.is_empty());
}

#[test]
fn pulsar_polling_is_best_effort() {
    let with = |link: Option<Vec<u8>>, rate: Option<Option<Vec<u8>>>| {
        let mut replies = vec![Some(power_reply(50)), link];
        replies.extend(rate);
        match run_read(&[pulsar()], true, &replies).0 {
            ReadResult::Status(s) => s.polling,
            _ => panic!("not read"),
        }
    };
    assert_eq!(with(None, None), None);
    assert_eq!(with(Some(link_reply(9)), None), None);
    assert_eq!(with(Some(link_reply(2)), Some(None)), None);
    assert_eq!(with(Some(link_reply(2)), Some(Some(rate_reply(3)))), None);
    let p = with(Some(link_reply(2)), Some(Some(rate_reply(8)))).unwrap();
    assert_eq!((p.hz, p.max_hz), (125, 1000));
}

#[test]
fn vaxee_is_read_with_its_polling_state() {
    let replies = [
        Some(feature_reply(0x0b, 1, 1, 17)),
        Some(feature_reply(0x10, 1, 1, 1)),
        Some(feature_reply(0x07, 1, 1, 3)),
        Some(feature_reply(0x08, 1, 1, 1)),
    ];
    let (result, requests, slept) = run_read(&[vaxee()], true, &replies);
    let ReadResult::Status(s) = result else {
        panic!("not read");
    };
    assert_eq!((s.percent, s.charging, s.voltage_mv), (85, true, None));
    let p = s.polling.unwrap();
    assert_eq!((p.hz, p.max_hz, p.rates), (2000, 4000, &VAXEE_RATES[..]));
    let expected: Vec<Vec<u8>> = [0x0b, 0x10, 0x07, 0x08]
        .iter()
        .map(|&cmd| vec![0x0e, 0xa5, cmd, 1, 1])
        .collect();
    assert_eq!(requests, expected);
    assert_eq!(slept, 0);
}

#[test]
fn vaxee_asks_for_both_and_tries_again_after_a_pause() {
    // The charging query is made even where the battery one failed.
    let replies = [
        None,
        Some(feature_reply(0x10, 1, 1, 0)),
        Some(feature_reply(0x0b, 1, 1, 4)),
        Some(feature_reply(0x10, 1, 1, 0)),
        None,
    ];
    let (result, requests, slept) = run_read(&[vaxee()], true, &replies);
    let ReadResult::Status(s) = result else {
        panic!("not read");
    };
    assert_eq!((s.percent, s.polling), (20, None));
    assert_eq!((requests.len(), slept), (5, 300));
}

#[test]
fn vaxee_that_stays_silent_is_not_responding() {
    let invalid = Some(feature_reply(0, 1, 1, 9));
    let replies = [None, None, Some(feature_reply(0x0b, 1, 1, 9)), invalid];
    let (result, _, slept) = run_read(&[vaxee()], true, &replies);
    assert!(matches!(result, ReadResult::NoResponse(p) if p == "VAXEE VXD02"));
    assert_eq!(slept, 600);
    let (result, ..) = run_read(&[vaxee()], false, &[]);
    assert!(matches!(result, ReadResult::NoResponse(_)));
}

#[test]
fn vaxee_polling_needs_both_further_replies() {
    let with = |rate: Option<Vec<u8>>, tracking: Option<Option<Vec<u8>>>| {
        let mut replies = vec![
            Some(feature_reply(0x0b, 1, 1, 10)),
            Some(feature_reply(0x10, 1, 1, 0)),
            rate,
        ];
        replies.extend(tracking);
        match run_read(&[vaxee()], true, &replies).0 {
            ReadResult::Status(s) => s.polling,
            _ => panic!("not read"),
        }
    };
    assert_eq!(with(None, None), None);
    assert_eq!(with(Some(vec![0x0e, 0xa5, 7, 1, 1]), None), None);
    assert_eq!(with(Some(feature_reply(7, 1, 1, 2)), Some(None)), None);
    assert_eq!(
        with(Some(feature_reply(7, 1, 1, 9)), Some(Some(feature_reply(8, 1, 1, 1)))),
        None
    );
    let p = with(Some(feature_reply(7, 1, 1, 2)), Some(Some(feature_reply(8, 1, 1, 2))));
    assert_eq!(p.map(|p| (p.hz, p.max_hz)), Some((1000, 1000)));
}

#[test]
fn pulsar_rate_is_set_when_echoed() {
    let req = pulsar_mem_set(0, &[0x20, 0x35]).to_vec();
    let (acked, requests, slept) = run_set(&[pulsar()], 4000, true, &[Some(req.clone())]);
    assert_eq!((acked, slept), (true, 0));
    assert_eq!(requests, [req.clone()]);
    let (acked, requests, _) = run_set(&[pulsar()], 4000, true, &[None, Some(req.clone())]);
    assert!(acked);
    assert_eq!(requests, [req.clone(), req.clone()]);
    let other = pulsar_mem_set(0, &[0x40, 0x15]).to_vec();
    let (acked, ..) = run_set(&[pulsar()], 4000, true, &[Some(other), Some(req[..7].to_vec())]);
    assert!(!acked);
    assert!(!run_set(&[pulsar()], 4000, false, &[]).0);
    // A rate that the protocol has not is refused before opening.
    assert!(matches!(set_polling(&[pulsar()], 3000), SetState::Done(false)));
}

#[test]
fn vaxee_rate_is_set_when_acknowledged() {
    let ack = Some(feature_reply(0x07, 3, 1, 1));
    let (acked, requests, slept) = run_set(&[vaxee()], 1000, true, &[ack.clone()]);
    assert_eq!((acked, slept), (true, 300));
    assert_eq!(requests, [vec![0x0e, 0xa5, 0x07, 0x02, 0x01, 0x02]]);
    // A stale read reply is no acknowledgement; the second attempt is.
    let stale = Some(feature_reply(0x07, 1, 1, 2));
    let (acked, requests, _) = run_set(&[vaxee()], 1000, true, &[stale.clone(), ack]);
    assert_eq!((acked, requests.len()), (true, 2));
    let (acked, _, slept) = run_set(&[vaxee()], 1000, true, &[stale, None]);
    assert_eq!((acked, slept), (false, 0));
    assert!(matches!(set_polling(&[vaxee()], 125), SetState::Done(false)));
}

#[test]
fn written_pulsar_rate_is_the_one_read_back() {
    for hz in PULSAR_RATES {
        let SetState::Open { value, .. } = set_polling(&[pulsar()], hz) else {
            panic!("refused");
        };
        let set = pulsar_mem_set(0, &[value, 0x55u8.wrapping_sub(value)]);
        let mut mem = set;
        mem[1] = 0x08;
        let replies = [Some(power_reply(1)), Some(link_reply(3)), Some(mem.to_vec())];
        let ReadResult::Status(s) = run_read(&[pulsar()], true, &replies).0 else {
            panic!("not read");
        };
        assert_eq!(s.polling.map(|p| p.hz), Some(hz));
    }
}

#[test]
fn events_that_were_not_asked_for_change_nothing() {
    let state = read_battery(&[pulsar()]).step(Event::Slept).step(Event::Reply(None));
    assert!(matches!(state, ReadState::Open { .. }));
    let state = state.step(Event::Opened(true)).step(Event::Opened(false));
    assert!(matches!(state, ReadState::PulsarPower { left: 1, .. }));
    let state = set_polling(&[vaxee()], 500).step(Event::Opened(true)).step(Event::Slept);
    assert!(matches!(state, SetState::Vaxee { index: 1, left: 1 }));
}

#[test]
fn pulsar_exchange_reads_until_the_echo_or_the_deadline() {
    let req = pulsar_frame(0x04, &[]);
    let xact = pulsar_xact(&req);
    assert!(matches!(xact, PulsarXact::Write { cmd: 0x04 }));
    assert!(matches!(pulsar_xact(&req).written(false), PulsarXact::Done(None)));
    let xact = xact.written(true).clocked(0);
    assert!(matches!(xact, PulsarXact::Read { timeout_ms: 2500, .. }));
    // Reports that answer something else are skipped.
    let mut xact = xact;
    for other in [vec![0x08, 0x01], vec![0x09, 0x04], vec![0x08], vec![]] {
        xact = xact.reported(Some(other));
        assert!(matches!(xact, PulsarXact::Clock { .. }));
        xact = xact.clocked(1_500_000_001);
        assert!(matches!(xact, PulsarXact::Read { timeout_ms: 999, .. }));
    }
    match xact.reported(Some(vec![0x08, 0x04, 1, 2])) {
        PulsarXact::Done(reply) => assert_eq!(reply, Some(vec![0x08, 0x04, 1, 2])),
        _ => panic!("not done"),
    }
    let late = pulsar_xact(&req).written(true).clocked(2_500_000_000);
    assert!(matches!(late, PulsarXact::Done(None)));
    let close = pulsar_xact(&req).written(true).clocked(2_499_999_999);
    assert!(matches!(close, PulsarXact::Read { timeout_ms: 0, .. }));
    assert!(matches!(close.reported(None), PulsarXact::Done(None)));
}

#[test]
fn vaxee_exchange_waits_and_fetches() {
    assert!(matches!(vaxee_xact().sent(false), VaxeeXact::Done(None)));
    let xact = vaxee_xact().sent(true);
    assert!(matches!(xact, VaxeeXact::Wait(100)));
    let xact = xact.waited();
    assert!(matches!(xact, VaxeeXact::Fetch(0x0e)));
    match xact.fetched(Some(feature_reply(0x0b, 1, 1, 3))) {
        VaxeeXact::Done(Some(reply)) => assert_eq!(reply[5], 3),
        _ => panic!("no reply"),
    }
    let xact = vaxee_xact().sent(true).waited();
    assert!(matches!(xact.fetched(Some(feature_reply(0, 1, 1, 3))), VaxeeXact::Done(None)));
    assert!(matches!(vaxee_xact().sent(true).waited().fetched(None), VaxeeXact::Done(None)));
}
