//! Deployment settings.

use vstd::prelude::*;

verus! {

/// Network and broker settings of one device.
#[derive(Clone, Copy, Debug)]
pub struct Config {
    pub wifi_ssid: &'static str,
    pub wifi_pass: &'static str,
    pub mqtt_url: &'static str,
    pub mqtt_client_id: &'static str,
    /// Topic of the speed command.
    pub topic_speed: &'static str,
    /// Topic of the switch command.
    pub topic_switch: &'static str,
    /// Topic on which the status is published.
    pub topic_status: &'static str,
}

/// Why a device cannot start with its settings.
#[derive(Clone, Copy, Debug, PartialEq, Eq, Structural)]
pub enum ConfigError {
    /// No WiFi network is named.
    MissingWifiSsid,
}

impl Default for Config {
    fn default() -> (config: Config)
        ensures
            config.wifi_ssid@ == ""@,
            config.wifi_pass@ == ""@,
            config.mqtt_url@ == "mqtt://broker.example.com:1883"@,
            config.mqtt_client_id@ == "esp32-blinker"@,
            config.topic_speed@ == "esp32/speed_level"@,
            config.topic_switch@ == "esp32/switch"@,
            config.topic_status@ == "esp32/status"@,
    {
        Config {
            wifi_ssid: "",
            wifi_pass: "",
            mqtt_url: "mqtt://broker.example.com:1883",
            mqtt_client_id: "esp32-blinker",
            topic_speed: "esp32/speed_level",
            topic_switch: "esp32/switch",
            topic_status: "esp32/status",
        }
    }
}

impl Config {
    /// Fails early on settings with which the device can never connect: an empty network name.
    pub fn check(&self) -> (ready: Result<(), ConfigError>)
        ensures
            ready == if self.wifi_ssid@.len() == 0 {
                Err::<(), ConfigError>(ConfigError::MissingWifiSsid)
            } else {
                Ok::<(), ConfigError>(())
            },
    {
        if self.wifi_ssid.is_empty() {
            Err(ConfigError::MissingWifiSsid)
        } else {
            Ok(())
        }
    }
}

} // verus!
