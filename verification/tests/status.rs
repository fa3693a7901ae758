use esp32_mqtt_blink::led::{MODE_BLINK, MODE_OFF, MODE_ON};
use esp32_mqtt_blink::status::{status_payload, Reason, Status};

#[test]
fn payload_while_blinking() {
    assert_eq!(
        status_payload(7, MODE_BLINK, "updated"),
        r#"{"mode":"blink","level":7,"delay_ms":367,"reason":"updated"}"#
    );
    assert_eq!(
        status_payload(5, MODE_BLINK, "updated"),
        r#"{"mode":"blink","level":5,"delay_ms":578,"reason":"updated"}"#
    );
}

#[test]
fn payload_while_blinking_at_level_zero() {
    assert_eq!(
        status_payload(0, MODE_BLINK, "updated"),
        r#"{"mode":"blink","level":0,"delay_ms":null,"reason":"updated"}"#
    );
}

#[test]
fn payload_with_a_level_out_of_range() {
    assert_eq!(
        status_payload(15, MODE_BLINK, "rejected_out_of_range"),
        r#"{"mode":"blink","level":15,"delay_ms":50,"reason":"rejected_out_of_range"}"#
    );
}

#[test]
fn payload_of_static_modes_shows_no_level() {
    assert_eq!(
        status_payload(5, MODE_ON, "switch_on"),
        r#"{"mode":"on","level":null,"delay_ms":null,"reason":"switch_on"}"#
    );
    assert_eq!(
        status_payload(5, MODE_OFF, "switch_off"),
        r#"{"mode":"off","level":null,"delay_ms":null,"reason":"switch_off"}"#
    );
}

#[test]
fn payload_of_an_unknown_mode() {
    assert_eq!(
        status_payload(5, 9, "x"),
        r#"{"mode":"blink","level":null,"delay_ms":null,"reason":"x"}"#
    );
}

#[test]
fn payload_of_every_reason() {
    let reasons = [
        (Reason::Updated, "updated"),
        (Reason::RejectedOutOfRange, "rejected_out_of_range"),
        (Reason::SwitchOn, "switch_on"),
        (Reason::SwitchOff, "switch_off"),
        (Reason::SwitchToggle, "switch_toggle"),
        (Reason::RejectedInvalidSwitch, "rejected_invalid_switch"),
        (Reason::ConnectedDefault, "connected_default"),
        (Reason::OfflineFallback, "offline_fallback"),
        (Reason::Heartbeat, "heartbeat"),
    ];
    for (reason, name) in reasons {
        assert_eq!(reason.as_str(), name);
        let status = Status { level: 10, mode: MODE_BLINK, reason };
        assert_eq!(
            status.payload(),
            format!(r#"{{"mode":"blink","level":10,"delay_ms":50,"reason":"{name}"}}"#)
        );
    }
}

#[test]
fn different_statuses_have_different_payloads() {
    let mut payloads = Vec::new();
    for reason in [Reason::Updated, Reason::Heartbeat, Reason::SwitchOn] {
        payloads.push(Status { level: 5, mode: MODE_OFF, reason }.payload());
        payloads.push(Status { level: 5, mode: MODE_ON, reason }.payload());
        for level in 0..=10 {
            payloads.push(Status { level, mode: MODE_BLINK, reason }.payload());
        }
    }
    let count = payloads.len();
    payloads.sort();
    payloads.dedup();
    assert_eq!(payloads.len(), count);
}
