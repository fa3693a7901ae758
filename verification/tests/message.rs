use esp32_mqtt_blink::config::Config;
use esp32_mqtt_blink::message::{read_message, read_speed, read_switch, Message, SwitchAction};

#[test]
fn speed_payloads() {
    for level in 0..=10u32 {
        assert_eq!(read_speed(level.to_string().as_bytes()), Message::Speed(level));
    }
    assert_eq!(read_speed(b"15"), Message::Speed(15));
    assert_eq!(read_speed(b"4294967295"), Message::Speed(u32::MAX));
    assert_eq!(read_speed(b" \t7\r\n"), Message::Speed(7));
    assert_eq!(read_speed("\u{3000}7\u{a0}".as_bytes()), Message::Speed(7));
}

#[test]
fn speed_payloads_that_are_no_number() {
    assert_eq!(read_speed(b""), Message::InvalidSpeed);
    assert_eq!(read_speed(b"  "), Message::InvalidSpeed);
    assert_eq!(read_speed(b"fast"), Message::InvalidSpeed);
    assert_eq!(read_speed(b"-1"), Message::InvalidSpeed);
    assert_eq!(read_speed(b"5 5"), Message::InvalidSpeed);
    assert_eq!(read_speed(b"4294967296"), Message::InvalidSpeed);
}

#[test]
fn payloads_that_are_no_text() {
    for data in [
        &[0xffu8][..],
        &[0x35, 0x80],
        &[0xc0, 0x80],
        &[0xed, 0xa0, 0x80],
        &[0xf4, 0x90, 0x80, 0x80],
        &[0xe2, 0x82],
    ] {
        assert_eq!(read_speed(data), Message::InvalidSpeed);
        assert_eq!(read_switch(data), Message::InvalidSwitch);
    }
}

#[test]
fn white_space_around_a_number_is_removed_and_nothing_else() {
    let white_space = [
        0x9, 0xa, 0xb, 0xc, 0xd, 0x20, 0x85, 0xa0, 0x1680, 0x2000, 0x2001, 0x2002, 0x2003, 0x2004,
        0x2005, 0x2006, 0x2007, 0x2008, 0x2009, 0x200a, 0x2028, 0x2029, 0x202f, 0x205f, 0x3000,
    ];
    for c in '\0'..=char::MAX {
        if c.is_ascii_digit() {
            continue;
        }
        let payload = format!("{c}5{c}");
        let expected = if white_space.contains(&(c as u32)) {
            Message::Speed(5)
        } else {
            Message::InvalidSpeed
        };
        assert_eq!(read_speed(payload.as_bytes()), expected, "{c:?}");
    }
}

#[test]
fn switch_payloads() {
    assert_eq!(read_switch(b"on"), Message::Switch(SwitchAction::On));
    assert_eq!(read_switch(b"off"), Message::Switch(SwitchAction::Off));
    assert_eq!(read_switch(b"toggle"), Message::Switch(SwitchAction::Toggle));
    assert_eq!(read_switch(b" on\n"), Message::Switch(SwitchAction::On));
}

#[test]
fn switch_payloads_that_are_no_action() {
    for data in ["", "flip", "ON", "On", "onn", "o n", "on off", "1", "toggle!"] {
        assert_eq!(read_switch(data.as_bytes()), Message::InvalidSwitch, "{data}");
    }
}

#[test]
fn topics_decide_how_a_payload_is_read() {
    let config = Config::default();
    assert_eq!(read_message(&config, Some("esp32/speed_level"), b"3"), Message::Speed(3));
    assert_eq!(
        read_message(&config, Some("esp32/switch"), b"off"),
        Message::Switch(SwitchAction::Off)
    );
    assert_eq!(read_message(&config, Some("esp32/switch"), b"3"), Message::InvalidSwitch);
    assert_eq!(read_message(&config, Some("esp32/speed_level"), b"off"), Message::InvalidSpeed);
    assert_eq!(read_message(&config, Some("esp32/status"), b"on"), Message::UnexpectedTopic);
    assert_eq!(read_message(&config, Some("esp32/speed_leve"), b"3"), Message::UnexpectedTopic);
    assert_eq!(read_message(&config, None, b"3"), Message::UnexpectedTopic);
    assert_eq!(read_message(&config, Some("x"), &[0xff]), Message::UnexpectedTopic);
}

#[test]
fn a_shared_topic_carries_speed_commands() {
    let config = Config { topic_speed: "t", topic_switch: "t", ..Config::default() };
    assert_eq!(read_message(&config, Some("t"), b"3"), Message::Speed(3));
    assert_eq!(read_message(&config, Some("t"), b"on"), Message::InvalidSpeed);
}
