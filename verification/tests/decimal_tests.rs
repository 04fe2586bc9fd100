use uptime_monitor::decimal::{parse_u16, push_decimal};

fn written(n: u64) -> String {
    let mut out = String::new();
    push_decimal(&mut out, n);
    out
}

#[test]
fn numbers_are_written_in_decimal() {
    assert_eq!(written(0), "0");
    assert_eq!(written(7), "7");
    assert_eq!(written(10), "10");
    assert_eq!(written(100), "100");
    assert_eq!(written(1234567890), "1234567890");
    assert_eq!(written(u64::MAX), "18446744073709551615");
}

#[test]
fn writing_appends_to_what_is_there() {
    let mut out = String::from("t=");
    push_decimal(&mut out, 160);
    assert_eq!(out, "t=160");
    push_decimal(&mut out, 0);
    assert_eq!(out, "t=1600");
}

#[test]
fn writing_agrees_with_the_standard_library() {
    let mut n: u64 = 1;
    for _ in 0..64 {
        assert_eq!(written(n), n.to_string());
        assert_eq!(written(n - 1), (n - 1).to_string());
        n = n.wrapping_mul(2);
    }
}

#[test]
fn numbers_are_read_from_decimal() {
    assert_eq!(parse_u16("0"), Some(0));
    assert_eq!(parse_u16("80"), Some(80));
    assert_eq!(parse_u16("8080"), Some(8080));
    assert_eq!(parse_u16("65535"), Some(65535));
    assert_eq!(parse_u16("+443"), Some(443));
    assert_eq!(parse_u16("0080"), Some(80));
    assert_eq!(parse_u16("000000000000000000000000000001"), Some(1));
}

#[test]
fn what_is_no_number_in_range_is_refused() {
    assert_eq!(parse_u16(""), None);
    assert_eq!(parse_u16("+"), None);
    assert_eq!(parse_u16("-"), None);
    assert_eq!(parse_u16("-1"), None);
    assert_eq!(parse_u16("-0"), None);
    assert_eq!(parse_u16("++1"), None);
    assert_eq!(parse_u16("1+"), None);
    assert_eq!(parse_u16(" 80"), None);
    assert_eq!(parse_u16("80 "), None);
    assert_eq!(parse_u16("80\n"), None);
    assert_eq!(parse_u16("8_0"), None);
    assert_eq!(parse_u16("0x50"), None);
    assert_eq!(parse_u16("80.0"), None);
    assert_eq!(parse_u16("eighty"), None);
    assert_eq!(parse_u16("65536"), None);
    assert_eq!(parse_u16("99999"), None);
    assert_eq!(parse_u16("4294967376"), None);
    assert_eq!(parse_u16("18446744073709551696"), None);
    assert_eq!(parse_u16("\u{663}"), None);
    assert_eq!(parse_u16("8\u{e9}"), None);
    assert_eq!(parse_u16("+\u{ff11}"), None);
}

#[test]
fn reading_agrees_with_the_standard_library() {
    let texts = [
        "", "+", "-", "0", "+0", "-0", "1", "01", "+01", "9", "10", "99", "100", "443", "999",
        "8080", "65534", "65535", "65536", "65540", "70000", "655350", "100000", "0000065535",
        "+65535", "+65536", " 1", "1 ", "1a", "a1", "+-1", "٣", "１", "1e3", "0x10", "1_000",
        "\t80", "80\r\n",
    ];
    for text in texts {
        assert_eq!(parse_u16(text), text.parse::<u16>().ok(), "reading {:?}", text);
    }
}

#[test]
fn every_number_in_range_is_read_back() {
    for n in 0..=u16::MAX {
        assert_eq!(parse_u16(&written(n as u64)), Some(n));
    }
}
