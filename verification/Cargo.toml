[package]
name = "esp32-mqtt-blink"
version = "0.1.0"
edition = "2021"
publish = false

[dependencies]
anyhow = "1"
log = "0.4"
toml-cfg = "0.2"
esp-idf-svc = { version = "0.52", features = ["critical-section"] }
