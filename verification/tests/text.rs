use mousebatt::text::{
    contains_ignoring_case, find_null, parse_byte, push_decimal, utf16_lossy, wide,
};

#[test]
fn decimals_match_the_standard_ones() {
    for n in [0u32, 7, 9, 10, 99, 100, 101, 65535, 1_000_000, u32::MAX] {
        let mut s = String::from("x");
        push_decimal(&mut s, n);
        assert_eq!(s, format!("x{n}"));
    }
}

#[test]
fn every_percentage_reads_back() {
    for p in 0..=255u8 {
        let mut s = String::new();
        push_decimal(&mut s, p.into());
        assert_eq!(parse_byte(&s), Some(p));
    }
}

#[test]
fn bytes_parse_as_the_standard_ones_do() {
    for s in [
        "", "0", "00", "007", "42", "+42", "-0", "-1", "+", "-", "255", "256", "999", "4294967297",
        "1e2", " 1", "1 ", "…", "?", "½", "٣", "0000000000000000000000255",
    ] {
        assert_eq!(parse_byte(s), s.parse::<u8>().ok(), "{s:?}");
    }
}

#[test]
fn vendor_search_ignores_ascii_case_only() {
    assert!(contains_ignoring_case("PULSAR X3", "Pulsar"));
    assert!(contains_ignoring_case("the vaxee one", "VAXEE"));
    assert!(!contains_ignoring_case("8K Dongle Gen.2", "Pulsar"));
    assert!(contains_ignoring_case("anything", ""));
    assert!(!contains_ignoring_case("", "a"));
    // Only ASCII letters are folded.
    assert!(!contains_ignoring_case("É", "é"));
    assert!(contains_ignoring_case("aaB", "ab"));
}

#[test]
fn wide_strings_match_the_standard_encoding() {
    for s in ["", "X3", "mousebatt — reading…", "·", "😀 mouse", "\u{10ffff}\u{e000}\u{d7ff}"] {
        let mut expected: Vec<u16> = s.encode_utf16().collect();
        expected.push(0);
        assert_eq!(wide(s), expected);
        assert_eq!(utf16_lossy(&expected[..expected.len() - 1]), s);
    }
}

#[test]
fn lossy_decoding_matches_the_standard_one() {
    let cases: [&[u16]; 9] = [
        &[],
        &[0x41, 0xd800],
        &[0xdc00, 0x42],
        &[0xd83d, 0xde00],
        &[0xd83d, 0xd83d, 0xde00],
        &[0xde00, 0xd83d],
        &[0xd83d, 0x41, 0xde00],
        &[0xdbff, 0xdfff, 0],
        &[0xffff, 0xe000, 0xd7ff],
    ];
    for units in cases {
        assert_eq!(utf16_lossy(units), String::from_utf16_lossy(units), "{units:04x?}");
    }
}

#[test]
fn first_null_is_found() {
    assert_eq!(find_null(&[]), 0);
    assert_eq!(find_null(&[0, 1]), 0);
    assert_eq!(find_null(&[5, 6, 0, 7, 0]), 2);
    assert_eq!(find_null(&[5, 6]), 2);
}
