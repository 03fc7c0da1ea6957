use beatmap_watcher::text::{decimal_string, dotted_string, hex_string, parse_u32};

#[test]
fn decimal_text() {
    assert_eq!(decimal_string(0), "0");
    assert_eq!(decimal_string(7), "7");
    assert_eq!(decimal_string(10), "10");
    assert_eq!(decimal_string(100), "100");
    assert_eq!(decimal_string(4294967295), "4294967295");
}

#[test]
fn hex_text() {
    assert_eq!(hex_string(&[]), "");
    assert_eq!(hex_string(&[0x00, 0x0f, 0xa5, 0xff]), "000fa5ff");
}

#[test]
fn dotted_text() {
    assert_eq!(dotted_string(&[]), "");
    assert_eq!(dotted_string(&[8]), "8");
    assert_eq!(dotted_string(&[192, 168, 0, 255]), "192.168.0.255");
}

#[test]
fn parse_accepts_what_std_accepts() {
    for text in ["0", "100", "+42", "0007", "4294967295"] {
        assert_eq!(parse_u32(text), text.parse::<u32>().ok(), "{text}");
    }
    assert_eq!(parse_u32("999"), Some(999));
}

#[test]
fn parse_rejects_what_std_rejects() {
    for text in ["", "+", "-1", "12a", " 1", "1 ", "4294967296", "99999999999", "++1", "١"] {
        assert_eq!(parse_u32(text), None, "{text}");
        assert!(text.parse::<u32>().is_err());
    }
}
