[package]
name = "esp_layground"
version = "0.1.0"
edition = "2021"
publish = false

[dependencies]
anyhow = "=1.0.104"
embedded-svc = "=0.29.0"
esp-idf-hal = { version = "=0.47.0", features = ["rmt-legacy", "timer-legacy"] }
esp-idf-svc = "=0.53.0"
esp32-nimble = "=0.13.0"
log = "=0.4.34"
nmea = "=0.8.0"
