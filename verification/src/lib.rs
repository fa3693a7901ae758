//! Decision core of an ESP32 firmware that drives an LED over MQTT.

pub mod config;
pub mod device;
pub mod led;
pub mod message;
pub mod status;
pub mod subscriber;
pub mod text;
