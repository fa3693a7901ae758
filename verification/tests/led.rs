use esp32_mqtt_blink::led::{
    build_delay_table, display_frame, level_to_delay_ms, mode_str, Frame, Phase, DELAY_TABLE,
    MAX_DELAY_MS, MAX_LEVEL, MIN_DELAY_MS, MODE_BLINK, MODE_OFF, MODE_ON, OFF_POLL_MS,
};

#[test]
fn mode_names() {
    assert_eq!(mode_str(MODE_OFF), "off");
    assert_eq!(mode_str(MODE_ON), "on");
    assert_eq!(mode_str(MODE_BLINK), "blink");
    assert_eq!(mode_str(3), "blink");
    assert_eq!(mode_str(255), "blink");
}

#[test]
fn delay_of_every_level() {
    let expected = [
        None,
        Some(1000),
        Some(895),
        Some(789),
        Some(684),
        Some(578),
        Some(473),
        Some(367),
        Some(262),
        Some(156),
        Some(50),
    ];
    for level in 0..=10u32 {
        assert_eq!(level_to_delay_ms(level), expected[level as usize]);
    }
    assert_eq!(build_delay_table(), expected);
}

#[test]
fn constant_table_is_the_built_one() {
    let built = build_delay_table();
    for level in 0..=MAX_LEVEL as usize {
        assert_eq!(built[level].unwrap_or(0), DELAY_TABLE[level]);
    }
}

#[test]
fn levels_above_the_highest_are_capped() {
    assert_eq!(level_to_delay_ms(11), Some(50));
    assert_eq!(level_to_delay_ms(15), Some(50));
    assert_eq!(level_to_delay_ms(u32::MAX), Some(50));
}

#[test]
fn higher_levels_are_faster_in_even_steps() {
    assert_eq!(level_to_delay_ms(1), Some(MAX_DELAY_MS));
    assert_eq!(level_to_delay_ms(MAX_LEVEL), Some(MIN_DELAY_MS));
    for level in 1..MAX_LEVEL {
        let step = level_to_delay_ms(level).unwrap() - level_to_delay_ms(level + 1).unwrap();
        assert!(step == 105 || step == 106);
    }
}

#[test]
fn static_modes_hold_the_pin() {
    for level in [0, 1, 5, 10, 99] {
        let off = Frame { first: Phase { high: false, ms: OFF_POLL_MS }, second: None };
        let on = Frame { first: Phase { high: true, ms: OFF_POLL_MS }, second: None };
        assert_eq!(display_frame(MODE_OFF, level), off);
        assert_eq!(display_frame(MODE_ON, level), on);
    }
    assert_eq!(OFF_POLL_MS, 100);
}

#[test]
fn blinking_drives_high_then_low() {
    assert_eq!(
        display_frame(MODE_BLINK, 5),
        Frame {
            first: Phase { high: true, ms: 578 },
            second: Some(Phase { high: false, ms: 578 }),
        }
    );
    assert_eq!(display_frame(7, 10).first, Phase { high: true, ms: 50 });
}

#[test]
fn blinking_at_level_zero_holds_the_pin_low() {
    assert_eq!(
        display_frame(MODE_BLINK, 0),
        Frame { first: Phase { high: false, ms: 100 }, second: None }
    );
}
