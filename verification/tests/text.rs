use esp32_mqtt_blink::text::{parse_number, push_number, same_text};

#[test]
fn numbers_are_read() {
    assert_eq!(parse_number("0"), Some(0));
    assert_eq!(parse_number("10"), Some(10));
    assert_eq!(parse_number("+7"), Some(7));
    assert_eq!(parse_number("0000000000000000000005"), Some(5));
    assert_eq!(parse_number("4294967295"), Some(u32::MAX));
}

#[test]
fn other_text_is_no_number() {
    for text in [
        "", "+", "++1", "-0", "-1", "1.5", "5 ", " 5", "5a", "a5", "1_0", "0x1", "4294967296",
        "99999999999999999999999", "٣", "5é",
    ] {
        assert_eq!(parse_number(text), None, "{text}");
    }
}

#[test]
fn numbers_are_read_as_the_standard_library_reads_them() {
    for text in [
        "", "+", "-", "+0", "-0", "00", "+00012", "4294967294", "4294967295", "4294967296",
        "42949672950", "+4294967295", "1+", "12 34", "\u{a0}5", "５", "five", "0b1", "1e3",
    ] {
        assert_eq!(parse_number(text), text.parse::<u32>().ok(), "{text}");
    }
    for n in 0..20000u32 {
        assert_eq!(parse_number(&n.to_string()), Some(n));
    }
}

#[test]
fn numbers_are_written() {
    for n in [0, 1, 9, 10, 50, 99, 100, 578, 1000, 4294967295] {
        let mut out = String::from("n=");
        push_number(&mut out, n);
        assert_eq!(out, format!("n={n}"));
    }
}

#[test]
fn written_numbers_are_read_back() {
    for n in [0, 7, 10, 4242, u32::MAX] {
        let mut out = String::new();
        push_number(&mut out, n);
        assert_eq!(parse_number(&out), Some(n));
    }
}

#[test]
fn texts_are_compared() {
    assert!(same_text("", ""));
    assert!(same_text("esp32/switch", "esp32/switch"));
    assert!(!same_text("esp32/switch", "esp32/status"));
    assert!(!same_text("on", "On"));
    assert!(!same_text("on", "one"));
    assert!(same_text("é", "é"));
    assert!(!same_text("é", "e"));
}
