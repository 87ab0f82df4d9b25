use wifski::text::i16_dec;
use wifski::text::parse_i16;
use wifski::text::parse_speed_tenths;
use wifski::text::parse_u8;
use wifski::text::str_eq;
use wifski::text::u16_dec;

#[test]
fn decimal_rendering() {
    assert_eq!(u16_dec(0), "0");
    assert_eq!(u16_dec(7), "7");
    assert_eq!(u16_dec(10), "10");
    assert_eq!(u16_dec(65535), "65535");
    assert_eq!(i16_dec(0), "0");
    assert_eq!(i16_dec(3), "3");
    assert_eq!(i16_dec(-5), "-5");
    assert_eq!(i16_dec(32767), "32767");
    assert_eq!(i16_dec(-32768), "-32768");
}

#[test]
fn unsigned_parsing() {
    assert_eq!(parse_u8("0"), Some(0));
    assert_eq!(parse_u8("255"), Some(255));
    assert_eq!(parse_u8("+7"), Some(7));
    assert_eq!(parse_u8("007"), Some(7));
    assert_eq!(parse_u8("256"), None);
    assert_eq!(parse_u8("99999999999999999999"), None);
    assert_eq!(parse_u8(""), None);
    assert_eq!(parse_u8("+"), None);
    assert_eq!(parse_u8("-1"), None);
    assert_eq!(parse_u8("1.0"), None);
    assert_eq!(parse_u8(" 1"), None);
}

#[test]
fn signed_parsing() {
    assert_eq!(parse_i16("0"), Some(0));
    assert_eq!(parse_i16("-0"), Some(0));
    assert_eq!(parse_i16("32767"), Some(32767));
    assert_eq!(parse_i16("-32768"), Some(-32768));
    assert_eq!(parse_i16("32768"), None);
    assert_eq!(parse_i16("-32769"), None);
    assert_eq!(parse_i16("+12"), Some(12));
    assert_eq!(parse_i16("-"), None);
    assert_eq!(parse_i16("ten"), None);
}

#[test]
fn speed_parsing_in_tenths() {
    assert_eq!(parse_speed_tenths("1"), Some(10));
    assert_eq!(parse_speed_tenths("2.0"), Some(20));
    assert_eq!(parse_speed_tenths("0.1"), Some(1));
    assert_eq!(parse_speed_tenths("0.5"), Some(5));
    assert_eq!(parse_speed_tenths("50"), Some(500));
    assert_eq!(parse_speed_tenths("1.25"), Some(12));
    assert_eq!(parse_speed_tenths("3.999"), Some(39));
    assert_eq!(parse_speed_tenths("99999999"), Some(65535));
    assert_eq!(parse_speed_tenths(""), None);
    assert_eq!(parse_speed_tenths("."), None);
    assert_eq!(parse_speed_tenths(".5"), None);
    assert_eq!(parse_speed_tenths("5."), None);
    assert_eq!(parse_speed_tenths("1.2.3"), None);
    assert_eq!(parse_speed_tenths("-1"), None);
    assert_eq!(parse_speed_tenths("fast"), None);
}

#[test]
fn string_equality() {
    assert!(str_eq("", ""));
    assert!(str_eq("loop", "loop"));
    assert!(!str_eq("loop", "Loop"));
    assert!(!str_eq("loop", "loo"));
    assert!(str_eq("naïve", "naïve"));
}
