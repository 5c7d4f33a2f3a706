use wsl_cam_bridge::text::{chars_of, decimal_string, parse_u32};

fn parse(s: &str) -> Option<u32> {
    let c = chars_of(s);
    parse_u32(&c, 0, c.len())
}

#[test]
fn decimal_rendering() {
    assert_eq!(decimal_string(0), "0");
    assert_eq!(decimal_string(7), "7");
    assert_eq!(decimal_string(1280), "1280");
    assert_eq!(decimal_string(u64::MAX), "18446744073709551615");
}

#[test]
fn parse_accepts_what_str_parse_accepts() {
    for s in ["0", "7", "+7", "007", "1920", "4294967295", "", "+", "-", "-1", "12a", " 1", "4294967296", "99999999999"] {
        assert_eq!(parse(s), s.parse::<u32>().ok(), "input {s:?}");
    }
}

#[test]
fn parse_decimal_roundtrip() {
    for n in [0u32, 1, 9, 10, 480, 65535, 4294967295] {
        assert_eq!(parse(&decimal_string(n as u64)), Some(n));
    }
}

#[test]
fn parse_inner_range() {
    let c = chars_of("w=640&h=480");
    assert_eq!(parse_u32(&c, 2, 5), Some(640));
    assert_eq!(parse_u32(&c, 8, 11), Some(480));
    assert_eq!(parse_u32(&c, 0, 3), None);
}

#[test]
fn chars_of_unicode() {
    assert_eq!(chars_of("aé€"), vec!['a', 'é', '€']);
}
