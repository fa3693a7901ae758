use esp32_mqtt_blink::config::Config;
use esp32_mqtt_blink::device::{Device, HEARTBEAT_SECS, OFFLINE_FALLBACK_SECS};
use esp32_mqtt_blink::led::{Frame, Phase, MODE_BLINK, MODE_OFF, MODE_ON};
use esp32_mqtt_blink::message::{read_message, Message, SwitchAction};
use esp32_mqtt_blink::status::{Reason, Status};

const TOGGLE: Message = Message::Switch(SwitchAction::Toggle);

/// The payload that the device answers to a message on the topic, if any.
fn answer(device: &mut Device, topic: &str, data: &str) -> Option<String> {
    let message = read_message(&Config::default(), Some(topic), data.as_bytes());
    device.receive(message).map(|status| status.payload())
}

#[test]
fn a_new_device_is_dark() {
    let device = Device::new();
    assert_eq!(
        device,
        Device { level: 5, mode: MODE_OFF, got_real_command: false, subscribed: false }
    );
    assert_eq!(device.frame().first, Phase { high: false, ms: 100 });
    assert_eq!(OFFLINE_FALLBACK_SECS, 10);
    assert_eq!(HEARTBEAT_SECS, 30);
}

#[test]
fn session_over_both_topics() {
    let mut device = Device::new();
    assert_eq!(
        answer(&mut device, "esp32/switch", "off").unwrap(),
        r#"{"mode":"off","level":null,"delay_ms":null,"reason":"switch_off"}"#
    );
    assert_eq!(
        answer(&mut device, "esp32/switch", "on").unwrap(),
        r#"{"mode":"on","level":null,"delay_ms":null,"reason":"switch_on"}"#
    );
    assert_eq!(
        answer(&mut device, "esp32/speed_level", "5").unwrap(),
        r#"{"mode":"blink","level":5,"delay_ms":578,"reason":"updated"}"#
    );
    assert_eq!(
        answer(&mut device, "esp32/switch", "toggle").unwrap(),
        r#"{"mode":"off","level":null,"delay_ms":null,"reason":"switch_toggle"}"#
    );
    assert_eq!(
        answer(&mut device, "esp32/switch", "toggle").unwrap(),
        r#"{"mode":"on","level":null,"delay_ms":null,"reason":"switch_toggle"}"#
    );
    assert_eq!(
        answer(&mut device, "esp32/switch", "toggle").unwrap(),
        r#"{"mode":"off","level":null,"delay_ms":null,"reason":"switch_toggle"}"#
    );
    assert_eq!(
        answer(&mut device, "esp32/switch", "flip").unwrap(),
        r#"{"mode":"off","level":null,"delay_ms":null,"reason":"rejected_invalid_switch"}"#
    );
    assert_eq!(device.mode, MODE_OFF);
    assert_eq!(
        device.heartbeat().payload(),
        r#"{"mode":"off","level":null,"delay_ms":null,"reason":"heartbeat"}"#
    );
}

#[test]
fn every_level_is_answered() {
    let mut device = Device::new();
    assert_eq!(
        answer(&mut device, "esp32/speed_level", "6").unwrap(),
        r#"{"mode":"blink","level":6,"delay_ms":473,"reason":"updated"}"#
    );
    assert_eq!(
        answer(&mut device, "esp32/speed_level", "0").unwrap(),
        r#"{"mode":"blink","level":0,"delay_ms":null,"reason":"updated"}"#
    );
    assert_eq!(
        answer(&mut device, "esp32/speed_level", "1").unwrap(),
        r#"{"mode":"blink","level":1,"delay_ms":1000,"reason":"updated"}"#
    );
    assert_eq!(
        answer(&mut device, "esp32/speed_level", "10").unwrap(),
        r#"{"mode":"blink","level":10,"delay_ms":50,"reason":"updated"}"#
    );
}

#[test]
fn a_level_out_of_range_is_rejected() {
    let mut device = Device::new();
    assert_eq!(
        answer(&mut device, "esp32/speed_level", "15").unwrap(),
        r#"{"mode":"off","level":null,"delay_ms":null,"reason":"rejected_out_of_range"}"#
    );
    assert!(device.got_real_command);
    device.receive(Message::Speed(3));
    assert_eq!(
        device.receive(Message::Speed(11)),
        Some(Status { level: 11, mode: MODE_BLINK, reason: Reason::RejectedOutOfRange })
    );
    assert_eq!(device.level, 3);
    assert_eq!(device.mode, MODE_BLINK);
}

#[test]
fn an_invalid_switch_word_counts_as_a_command() {
    let mut device = Device::new();
    assert_eq!(
        device.receive(Message::InvalidSwitch),
        Some(Status { level: 5, mode: MODE_OFF, reason: Reason::RejectedInvalidSwitch })
    );
    assert!(device.got_real_command);
    assert_eq!(device.connected(), None);
    assert_eq!(device.mode, MODE_OFF);
}

#[test]
fn other_topics_are_ignored() {
    let mut device = Device::new();
    assert_eq!(device.receive(Message::UnexpectedTopic), None);
    assert_eq!(answer(&mut device, "esp32/status", "on"), None);
    assert_eq!(device, Device::new());
}

#[test]
fn a_speed_that_is_no_number_is_rejected() {
    let mut device = Device::new();
    assert_eq!(
        answer(&mut device, "esp32/speed_level", "fast").unwrap(),
        r#"{"mode":"off","level":null,"delay_ms":null,"reason":"rejected_out_of_range"}"#
    );
    assert_eq!(device, Device { got_real_command: true, ..Device::new() });
    assert_eq!(device.connected(), None);
    device.receive(Message::Speed(3));
    assert_eq!(
        answer(&mut device, "esp32/speed_level", "4294967296").unwrap(),
        r#"{"mode":"blink","level":3,"delay_ms":789,"reason":"rejected_out_of_range"}"#
    );
    assert_eq!(device.level, 3);
}

#[test]
fn bytes_that_are_no_text_are_rejected() {
    let config = Config::default();
    let mut device = Device::new();
    let message = read_message(&config, Some("esp32/switch"), &[0xff]);
    assert_eq!(
        device.receive(message),
        Some(Status { level: 5, mode: MODE_OFF, reason: Reason::RejectedInvalidSwitch })
    );
    assert_eq!(device, Device { got_real_command: true, ..Device::new() });
    let mut device = Device::new();
    let message = read_message(&config, Some("esp32/speed_level"), &[0xff]);
    assert_eq!(
        device.receive(message),
        Some(Status { level: 5, mode: MODE_OFF, reason: Reason::RejectedOutOfRange })
    );
    assert_eq!(device, Device { got_real_command: true, ..Device::new() });
}

#[test]
fn toggle_after_blink_turns_off() {
    for level in 0..=10 {
        let mut device = Device::new();
        device.receive(Message::Speed(level));
        assert_eq!(device.mode, MODE_BLINK);
        device.receive(TOGGLE);
        assert_eq!(device.mode, MODE_OFF);
        device.receive(TOGGLE);
        assert_eq!(device.mode, MODE_ON);
        assert_eq!(device.level, level);
    }
}

#[test]
fn a_prompt_connection_lights_the_device() {
    let mut device = Device::new();
    assert_eq!(
        device.connected().unwrap().payload(),
        r#"{"mode":"on","level":null,"delay_ms":null,"reason":"connected_default"}"#
    );
    assert_eq!(device.mode, MODE_ON);
    assert_eq!(device.level, 5);
    let connected = device;
    assert_eq!(device.window_ends(), None);
    assert_eq!(device, connected);
}

#[test]
fn no_connection_makes_the_device_blink_fast() {
    let mut device = Device::new();
    assert_eq!(
        device.window_ends().unwrap().payload(),
        r#"{"mode":"blink","level":10,"delay_ms":50,"reason":"offline_fallback"}"#
    );
    assert_eq!(
        device.frame(),
        Frame {
            first: Phase { high: true, ms: 50 },
            second: Some(Phase { high: false, ms: 50 }),
        }
    );
}

#[test]
fn a_late_connection_ends_the_distress_signal() {
    let mut device = Device::new();
    device.window_ends();
    let report = device.connected().unwrap();
    assert_eq!(report, Status { level: 10, mode: MODE_ON, reason: Reason::ConnectedDefault });
    assert_eq!(device.frame(), Frame { first: Phase { high: true, ms: 100 }, second: None });
    assert_eq!(
        device.heartbeat().payload(),
        r#"{"mode":"on","level":null,"delay_ms":null,"reason":"heartbeat"}"#
    );
}

#[test]
fn a_command_wins_over_the_connection() {
    let mut device = Device::new();
    device.receive(Message::Speed(4));
    assert_eq!(device.connected(), None);
    assert_eq!(
        device,
        Device { level: 4, mode: MODE_BLINK, got_real_command: true, subscribed: true }
    );
}

#[test]
fn the_window_ends_over_a_command_without_subscriptions() {
    let mut device = Device::new();
    device.receive(Message::Switch(SwitchAction::Off));
    assert_eq!(device.window_ends().unwrap().reason, Reason::OfflineFallback);
    assert_eq!(device.mode, MODE_BLINK);
    assert_eq!(device.level, 10);
}

#[test]
fn switching_never_resumes_the_blink() {
    let mut device = Device::new();
    device.receive(Message::Speed(8));
    for action in [SwitchAction::Off, SwitchAction::On, SwitchAction::Toggle, SwitchAction::Toggle] {
        device.receive(Message::Switch(action));
        assert_ne!(device.mode, MODE_BLINK);
        device.receive(Message::InvalidSwitch);
        device.receive(Message::Speed(12));
        device.receive(Message::InvalidSpeed);
        assert_ne!(device.mode, MODE_BLINK);
        assert_eq!(device.level, 8);
    }
}
