use mousebatt::protocol::{
    parse_pulsar, parse_pulsar_link_max, parse_pulsar_polling, parse_vaxee, parse_vaxee_polling,
    pulsar_code_rate, pulsar_frame, pulsar_info_request, pulsar_mem_get, pulsar_mem_set,
    pulsar_rate_code, pulsar_set_acked, vaxee_index_rate, vaxee_rate_index, vaxee_request,
    vaxee_valid, vaxee_write_acked, vaxee_write_request, PULSAR_CMD_POWER, PULSAR_RATES,
    VAXEE_RATES,
};

#[test]
fn pulsar_power_frame_matches_kysona() {
    let r = pulsar_frame(PULSAR_CMD_POWER, &[]);
    assert_eq!(r[0], 0x08);
    assert_eq!(r[1], 0x04);
    assert!(r[2..16].iter().all(|&b| b == 0));
    assert_eq!(r[16], 0x49);
    assert_eq!(r.iter().map(|&b| b as u32).sum::<u32>(), 0x55);
}

#[test]
fn pulsar_checksum_wraps() {
    // Captured: `08 08 00 00 00 0a 00*10 3b` and `08 07 00 00 00 02 02 53 … ef`.
    assert_eq!(pulsar_mem_get(0, 10)[16], 0x3b);
    let set = pulsar_mem_set(0, &[0x02, 0x53]);
    assert_eq!(&set[..8], &[0x08, 0x07, 0, 0, 0, 2, 0x02, 0x53]);
    assert_eq!(set[16], 0xef);
    // 16-bit addresses split big-endian into bytes 3-4.
    assert_eq!(&pulsar_mem_get(0x1b32, 4)[2..6], &[0, 0x1b, 0x32, 4]);
}

#[test]
fn pulsar_info_request_frame() {
    // Captured: `08 01 00 00 00 08 11 22 33 44 00*6 9a`.
    let r = pulsar_info_request();
    assert_eq!(&r[..10], &[0x08, 0x01, 0, 0, 0, 8, 0x11, 0x22, 0x33, 0x44]);
    assert_eq!(r[16], 0x9a);
}

fn pulsar_reply(pct: u8, chg: u8, mv: u16) -> Vec<u8> {
    let mut r = vec![0u8; 17];
    r[0] = 0x08;
    r[1] = 0x04;
    r[6] = pct;
    r[7] = chg;
    r[8..10].copy_from_slice(&mv.to_be_bytes());
    r
}

#[test]
fn pulsar_parses_valid_reply() {
    let s = parse_pulsar(&pulsar_reply(73, 0, 3912), "X3").unwrap();
    assert_eq!(s.percent, 73);
    assert!(!s.charging);
    assert_eq!(s.voltage_mv, Some(3912));
    assert_eq!(s.product, "X3");
    assert_eq!(s.polling, None);
}

#[test]
fn pulsar_charging_and_voltage_endianness() {
    let s = parse_pulsar(&pulsar_reply(50, 1, 0x1234), "X3").unwrap();
    assert!(s.charging);
    assert_eq!(s.voltage_mv, Some(0x1234));
    // charging flag is exactly 1, not "non-zero"
    assert!(
        !parse_pulsar(&pulsar_reply(50, 2, 0), "X3")
            .unwrap()
            .charging
    );
}

#[test]
fn pulsar_clamps_percent() {
    assert_eq!(
        parse_pulsar(&pulsar_reply(200, 0, 0), "X3")
            .unwrap()
            .percent,
        100
    );
}

#[test]
fn pulsar_rejects_wrong_header_or_short() {
    let mut r = pulsar_reply(50, 0, 0);
    r[1] = 0x05;
    assert!(parse_pulsar(&r, "X3").is_none());
    assert!(parse_pulsar(&pulsar_reply(50, 0, 0)[..9], "X3").is_none());
    assert!(parse_pulsar(&[], "X3").is_none());
}

#[test]
fn pulsar_rate_codes_round_trip() {
    for hz in PULSAR_RATES {
        assert_eq!(pulsar_code_rate(pulsar_rate_code(hz).unwrap()), Some(hz));
    }
    assert_eq!(pulsar_rate_code(1000), Some(0x01));
    assert_eq!(pulsar_rate_code(125), Some(0x08));
    assert_eq!(pulsar_rate_code(8000), Some(0x40));
    assert_eq!(pulsar_rate_code(3000), None);
    assert_eq!(pulsar_code_rate(0x03), None);
}

fn info_reply(link: u8) -> Vec<u8> {
    // Captured wired reply: `08 01 00 00 00 08 8a df dd 21 57 68 02 00 00 00 1c`.
    let mut r = vec![
        0x08, 0x01, 0, 0, 0, 8, 0x8a, 0xdf, 0xdd, 0x21, 0x57, 0x68, 0x02, 0, 0, 0, 0x1c,
    ];
    r[12] = link;
    r
}

#[test]
fn pulsar_link_max_rate() {
    assert_eq!(parse_pulsar_link_max(&info_reply(2)), Some(1000));
    assert_eq!(parse_pulsar_link_max(&info_reply(0)), Some(1000));
    assert_eq!(parse_pulsar_link_max(&info_reply(1)), Some(4000));
    assert_eq!(parse_pulsar_link_max(&info_reply(3)), Some(8000));
    assert_eq!(parse_pulsar_link_max(&info_reply(4)), Some(2000));
    assert_eq!(parse_pulsar_link_max(&info_reply(5)), Some(8000));
    assert_eq!(parse_pulsar_link_max(&info_reply(9)), None);
    assert_eq!(parse_pulsar_link_max(&info_reply(2)[..12]), None);
    let mut wrong_cmd = info_reply(2);
    wrong_cmd[1] = 0x04;
    assert_eq!(parse_pulsar_link_max(&wrong_cmd), None);
}

fn mem_reply(code: u8, complement: u8) -> Vec<u8> {
    // Captured: `08 08 00 00 00 0a 01 54 02 53 01 54 00 55 00 55 92`.
    let mut r = vec![0x08, 0x08, 0, 0, 0, 2, code, complement];
    r.resize(17, 0);
    r
}

#[test]
fn pulsar_polling_from_mem_reply() {
    assert_eq!(parse_pulsar_polling(&mem_reply(0x01, 0x54)), Some(1000));
    assert_eq!(parse_pulsar_polling(&mem_reply(0x02, 0x53)), Some(500));
    assert_eq!(parse_pulsar_polling(&mem_reply(0x40, 0x15)), Some(8000));
    // complement mismatch, unknown code, wrong address, short
    assert_eq!(parse_pulsar_polling(&mem_reply(0x01, 0x00)), None);
    assert_eq!(parse_pulsar_polling(&mem_reply(0x03, 0x52)), None);
    let mut other_addr = mem_reply(0x01, 0x54);
    other_addr[4] = 0x02;
    assert_eq!(parse_pulsar_polling(&other_addr), None);
    assert_eq!(parse_pulsar_polling(&mem_reply(0x01, 0x54)[..7]), None);
}

#[test]
fn pulsar_set_ack_requires_echo() {
    let req = pulsar_mem_set(0, &[0x02, 0x53]);
    assert!(pulsar_set_acked(&req, &req));
    let mut other_value = req;
    other_value[6] = 0x01;
    other_value[7] = 0x54;
    assert!(!pulsar_set_acked(&req, &other_value));
    assert!(!pulsar_set_acked(&req, &req[..7]));
    // Trailing bytes/checksum are not part of the ack.
    let mut junk_tail = req;
    junk_tail[16] = 0;
    assert!(pulsar_set_acked(&req, &junk_tail));
}

#[test]
fn vaxee_request_frame() {
    assert_eq!(vaxee_request(0x0b), [0x0e, 0xa5, 0x0b, 0x01, 0x01]);
    assert_eq!(vaxee_request(0x10)[2], 0x10);
}

fn vaxee_reply(cmd: u8, val: u8) -> Vec<u8> {
    let mut r = vec![0u8; 64];
    r[0] = 0x0e;
    r[1] = 0xa5;
    r[2] = cmd;
    r[5] = val;
    r
}

#[test]
fn vaxee_valid_requires_echoed_cmd_and_length() {
    assert!(vaxee_valid(vaxee_reply(0x0b, 10)).is_some());
    assert!(vaxee_valid(vaxee_reply(0x00, 10)).is_none());
    assert!(vaxee_valid(vec![0x0e, 0xa5, 0x0b, 1, 1]).is_none());
}

#[test]
fn vaxee_parses_steps_and_charging() {
    let s = parse_vaxee(&vaxee_reply(0x0b, 17), &vaxee_reply(0x10, 0), "VAXEE");
    assert_eq!(s.percent, 85);
    assert!(!s.charging);
    assert_eq!(s.voltage_mv, None);
    assert_eq!(s.polling, None);
    let s = parse_vaxee(&vaxee_reply(0x0b, 20), &vaxee_reply(0x10, 7), "VAXEE");
    assert_eq!(s.percent, 100);
    assert!(s.charging);
}

#[test]
fn vaxee_clamps_percent() {
    assert_eq!(
        parse_vaxee(&vaxee_reply(0x0b, 25), &vaxee_reply(0x10, 0), "V").percent,
        100
    );
}

#[test]
fn vaxee_write_frame_and_ack() {
    // Captured: `0e a5 07 02 01 02` -> `0e a5 07 03 01 01`.
    assert_eq!(
        vaxee_write_request(0x07, &[2]),
        [0x0e, 0xa5, 0x07, 0x02, 0x01, 0x02]
    );
    let ack = [0x0e, 0xa5, 0x07, 0x03, 0x01, 0x01, 0, 0];
    assert!(vaxee_write_acked(&ack, 0x07));
    assert!(!vaxee_write_acked(&ack, 0x08));
    let mut nak = ack;
    nak[5] = 0;
    assert!(!vaxee_write_acked(&nak, 0x07));
    assert!(!vaxee_write_acked(&ack[..5], 0x07));
    // A stale read reply for the same cmd is not an ack.
    assert!(!vaxee_write_acked(&vaxee_reply(0x07, 3), 0x07));
}

#[test]
fn vaxee_rate_indexes_round_trip() {
    for hz in VAXEE_RATES {
        assert_eq!(vaxee_index_rate(vaxee_rate_index(hz).unwrap()), Some(hz));
    }
    assert_eq!(vaxee_rate_index(500), Some(1));
    assert_eq!(vaxee_rate_index(2000), Some(3));
    assert_eq!(vaxee_rate_index(125), None);
    assert_eq!(vaxee_index_rate(0), None);
    assert_eq!(vaxee_index_rate(6), None);
}

fn tracking_reply(len: u8, mode: u8) -> Vec<u8> {
    let mut r = vaxee_reply(0x08, mode);
    r[4] = len;
    r
}

#[test]
fn vaxee_polling_on_4k_dongle() {
    // Captured: rate `0e a5 07 01 01 03`, tracking `0e a5 08 01 01 01`, PID 0x2001.
    let p = parse_vaxee_polling(&vaxee_reply(0x07, 3), &tracking_reply(1, 1), 0x2001).unwrap();
    assert_eq!((p.hz, p.max_hz), (2000, 4000));
    assert_eq!(p.rates, &VAXEE_RATES);
    // Motion-sync-on gaming mode is still gaming.
    let p = parse_vaxee_polling(&vaxee_reply(0x07, 4), &tracking_reply(1, 3), 0x2001).unwrap();
    assert_eq!((p.hz, p.max_hz), (4000, 4000));
}

#[test]
fn vaxee_polling_ceilings() {
    // Standard tracking caps at 1 kHz, in both encodings.
    let p = parse_vaxee_polling(&vaxee_reply(0x07, 2), &tracking_reply(1, 2), 0x2001).unwrap();
    assert_eq!(p.max_hz, 1000);
    let p = parse_vaxee_polling(&vaxee_reply(0x07, 2), &tracking_reply(2, 0), 0x2002).unwrap();
    assert_eq!(p.max_hz, 1000);
    // 2-byte encoding, mode 1 = gaming, on the 8K receiver.
    let p = parse_vaxee_polling(&vaxee_reply(0x07, 5), &tracking_reply(2, 1), 0x2002).unwrap();
    assert_eq!((p.hz, p.max_hz), (8000, 8000));
    // The 1K receiver and a mouse on its cable get 1 kHz.
    assert_eq!(
        parse_vaxee_polling(&vaxee_reply(0x07, 2), &tracking_reply(1, 1), 0x1001)
            .unwrap()
            .max_hz,
        1000
    );
    assert_eq!(
        parse_vaxee_polling(&vaxee_reply(0x07, 2), &tracking_reply(1, 1), 0x1008)
            .unwrap()
            .max_hz,
        1000
    );
    // The current rate is never hidden by the ceiling.
    let p = parse_vaxee_polling(&vaxee_reply(0x07, 4), &tracking_reply(1, 2), 0x2001).unwrap();
    assert_eq!((p.hz, p.max_hz), (4000, 4000));
}

#[test]
fn vaxee_polling_rejects_bad_replies() {
    assert!(
        parse_vaxee_polling(&vaxee_reply(0x07, 9), &tracking_reply(1, 1), 0x2001).is_none()
    );
    assert!(
        parse_vaxee_polling(&vaxee_reply(0x0b, 3), &tracking_reply(1, 1), 0x2001).is_none()
    );
    assert!(
        parse_vaxee_polling(&vaxee_reply(0x07, 3), &vaxee_reply(0x0b, 1), 0x2001).is_none()
    );
}
