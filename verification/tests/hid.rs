use mousebatt::hid::{
    enumerate, feature_buffer, finish_overlapped, input_buffer, interface_list, interface_paths,
    io_queued, must_cancel, probe, received, report_buffer, Caps, HidDeviceInfo, ListState,
    ProbeEvent, ProbeState, PULSAR_VID, VAXEE_VID,
};

const CAPS: Caps = Caps {
    usage_page: 0xff02,
    usage: 2,
    input_len: 17,
    output_len: 18,
    feature_len: 64,
};

fn units(s: &str) -> Vec<u16> {
    s.encode_utf16().collect()
}

#[test]
fn list_is_fetched_at_the_first_timely_attempt() {
    let state = interface_list();
    assert!(matches!(state, ListState::Size { attempt: 0 }));
    let state = state.sized(0, 5);
    assert!(matches!(state, ListState::Fill { attempt: 0, len: 5 }));
    let state = state.filled(26, vec![0; 5]);
    assert!(matches!(state, ListState::Size { attempt: 1 }));
    match state.sized(0, 2).filled(0, vec![65, 0]) {
        ListState::Done(list) => assert_eq!(list, Some(vec![65, 0])),
        _ => panic!("not done"),
    }
}

#[test]
fn list_is_given_up_on_errors_and_after_four_attempts() {
    assert!(matches!(interface_list().sized(1, 5), ListState::Done(None)));
    assert!(matches!(interface_list().sized(0, 0), ListState::Done(None)));
    assert!(matches!(interface_list().sized(0, 1).filled(3, vec![0]), ListState::Done(None)));
    let mut state = interface_list();
    for _ in 0..3 {
        state = state.sized(0, 1).filled(26, vec![0]);
        assert!(matches!(state, ListState::Size { .. }));
    }
    assert!(matches!(state.sized(0, 1).filled(26, vec![0]), ListState::Done(None)));
    // What was not asked for changes nothing.
    assert!(matches!(interface_list().filled(0, vec![]), ListState::Size { attempt: 0 }));
}

#[test]
fn multi_strings_split_into_terminated_paths() {
    let mut list = units("\\\\?\\hid#1");
    list.push(0);
    list.extend(units("two"));
    list.extend([0, 0]);
    let mut one = units("\\\\?\\hid#1");
    one.push(0);
    let mut two = units("two");
    two.push(0);
    assert_eq!(interface_paths(&list), [one, two.clone()]);
    assert_eq!(interface_paths(&[0, 0, 7, 0, 0, 8]), [[7, 0], [8, 0]]);
    assert!(interface_paths(&[]).is_empty());
    assert!(interface_paths(&[0]).is_empty());
    assert_eq!(interface_paths(&units("two")), [two]);
}

#[test]
fn probe_of_a_known_device_finds_it() {
    let mut name = units("X3 😀");
    name.extend([0, 0x41, 0xd800]);
    let state = probe(vec![7, 0])
        .step(ProbeEvent::Opened(true))
        .step(ProbeEvent::Attributes(Some((PULSAR_VID, 9))))
        .step(ProbeEvent::Caps(Some(CAPS)))
        .step(ProbeEvent::Name(Some(name)));
    let ProbeState::Done(Some(info)) = state else {
        panic!("not found");
    };
    assert_eq!(info.path, [7, 0]);
    assert_eq!((info.vid, info.pid), (PULSAR_VID, 9));
    assert_eq!((info.usage_page, info.usage), (0xff02, 2));
    assert_eq!((info.input_len, info.output_len, info.feature_len), (17, 18, 64));
    assert_eq!(info.product, "X3 😀");
}

#[test]
fn product_string_is_optional_and_decoded_lossily() {
    let named = |name: Option<Vec<u16>>| {
        let state = probe(vec![0])
            .step(ProbeEvent::Opened(true))
            .step(ProbeEvent::Attributes(Some((VAXEE_VID, 1))))
            .step(ProbeEvent::Caps(Some(CAPS)))
            .step(ProbeEvent::Name(name));
        match state {
            ProbeState::Done(Some(info)) => info.product,
            _ => panic!("not found"),
        }
    };
    assert_eq!(named(None), "");
    assert_eq!(named(Some(vec![0; 128])), "");
    assert_eq!(named(Some(vec![0x41; 128])), "A".repeat(128));
    assert_eq!(named(Some(vec![0x41, 0xd800, 0x42])), "A\u{fffd}B");
}

#[test]
fn probe_gives_up_where_it_has_to() {
    assert!(matches!(probe(vec![0]).step(ProbeEvent::Opened(false)), ProbeState::Done(None)));
    let opened = || probe(vec![0]).step(ProbeEvent::Opened(true));
    assert!(matches!(opened(), ProbeState::Attributes { .. }));
    assert!(matches!(opened().step(ProbeEvent::Attributes(None)), ProbeState::Done(None)));
    // Other vendors are skipped before anything else is asked.
    assert!(matches!(
        opened().step(ProbeEvent::Attributes(Some((0x046d, 1)))),
        ProbeState::Done(None)
    ));
    let known = opened().step(ProbeEvent::Attributes(Some((PULSAR_VID, 1))));
    assert!(matches!(known, ProbeState::Caps { vid: PULSAR_VID, pid: 1, .. }));
    assert!(matches!(known.step(ProbeEvent::Caps(None)), ProbeState::Done(None)));
}

fn info(path: Vec<u16>) -> HidDeviceInfo {
    HidDeviceInfo {
        pid: path[0],
        path,
        vid: PULSAR_VID,
        usage_page: 1,
        usage: 1,
        product: String::new(),
        input_len: 0,
        output_len: 0,
        feature_len: 0,
    }
}

#[test]
fn enumeration_keeps_what_was_found_in_order() {
    let mut e = enumerate(Some(vec![5, 0, 6, 0, 7, 0, 0]));
    let mut asked = Vec::new();
    while let Some(path) = e.next_path() {
        asked.push(path.clone());
        e.probed(if path[0] == 6 { None } else { Some(info(path)) });
    }
    assert_eq!(asked, [[5, 0], [6, 0], [7, 0]]);
    let pids: Vec<u16> = e.found.iter().map(|d| d.pid).collect();
    assert_eq!(pids, [5, 7]);
    let none = enumerate(None);
    assert!(none.next_path().is_none() && none.found.is_empty());
}

#[test]
fn reports_are_padded_to_the_collection() {
    assert_eq!(report_buffer(5, &[8, 4]), [8, 4, 0, 0, 0]);
    assert_eq!(report_buffer(1, &[8, 4]), [8, 4]);
    assert_eq!(report_buffer(0, &[]), []);
    assert_eq!(input_buffer(3), [0, 0, 0]);
    assert_eq!(feature_buffer(3, 0x0e), Some(vec![0x0e, 0, 0]));
    assert_eq!(feature_buffer(0, 0x0e), None);
    assert_eq!(received(vec![1, 2, 3], 2), [1, 2]);
    assert_eq!(received(vec![1, 2, 3], 9), [1, 2, 3]);
    assert_eq!(received(vec![1, 2, 3], 0), []);
}

#[test]
fn overlapped_operations_end_as_they_should() {
    assert!(io_queued(1, 0) && io_queued(0, 997) && !io_queued(0, 5));
    assert!(!must_cancel(0) && must_cancel(258));
    assert_eq!(finish_overlapped(0, 1, 17), Some(17));
    assert_eq!(finish_overlapped(0, 0, 17), None);
    assert_eq!(finish_overlapped(258, 1, 17), None);
}
