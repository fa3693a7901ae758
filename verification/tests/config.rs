use esp32_mqtt_blink::config::{Config, ConfigError};

#[test]
fn default_settings() {
    let config = Config::default();
    assert_eq!(config.wifi_ssid, "");
    assert_eq!(config.wifi_pass, "");
    assert_eq!(config.mqtt_url, "mqtt://broker.example.com:1883");
    assert_eq!(config.mqtt_client_id, "esp32-blinker");
    assert_eq!(config.topic_speed, "esp32/speed_level");
    assert_eq!(config.topic_switch, "esp32/switch");
    assert_eq!(config.topic_status, "esp32/status");
}

#[test]
fn an_empty_network_name_is_refused() {
    assert_eq!(Config::default().check(), Err(ConfigError::MissingWifiSsid));
    let named = Config { wifi_ssid: "home", ..Config::default() };
    assert_eq!(named.check(), Ok(()));
    let blank = Config { wifi_ssid: " ", ..Config::default() };
    assert_eq!(blank.check(), Ok(()));
}
