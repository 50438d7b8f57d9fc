use nyaa::text::{parse_u32, u32_to_string};

#[test]
fn parse_plain_numbers() {
    assert_eq!(parse_u32("0"), Some(0));
    assert_eq!(parse_u32("12"), Some(12));
    assert_eq!(parse_u32("007"), Some(7));
    assert_eq!(parse_u32("4294967295"), Some(u32::MAX));
}

#[test]
fn parse_accepts_one_leading_plus() {
    assert_eq!(parse_u32("+12"), Some(12));
    assert_eq!(parse_u32("+0"), Some(0));
    assert_eq!(parse_u32("+4294967295"), Some(u32::MAX));
}

#[test]
fn parse_rejects_non_digits_and_overflow() {
    assert_eq!(parse_u32(""), None);
    assert_eq!(parse_u32(" 12"), None);
    assert_eq!(parse_u32("1,234"), None);
    assert_eq!(parse_u32("-1"), None);
    assert_eq!(parse_u32("+"), None);
    assert_eq!(parse_u32("++1"), None);
    assert_eq!(parse_u32("1+2"), None);
    assert_eq!(parse_u32("12a"), None);
    assert_eq!(parse_u32("4294967296"), None);
    assert_eq!(parse_u32("99999999999999999999"), None);
}

#[test]
fn render_numbers_in_decimal() {
    assert_eq!(u32_to_string(0), "0");
    assert_eq!(u32_to_string(7), "7");
    assert_eq!(u32_to_string(42), "42");
    assert_eq!(u32_to_string(1000), "1000");
    assert_eq!(u32_to_string(u32::MAX), "4294967295");
}

#[test]
fn parse_and_render_round_trip() {
    for n in [0u32, 1, 9, 10, 99, 12345, u32::MAX] {
        assert_eq!(parse_u32(&u32_to_string(n)), Some(n));
    }
}
