[package]
name = "sensilo"
version = "0.1.0"
edition = "2021"
publish = false

[dependencies]
anyhow = "=1.0.104"
embedded-hal = "=0.2.7"
embedded-svc = "=0.28.1"
esp-idf-hal = "=0.47.0"
esp-idf-svc = "=0.53.0"
esp-idf-sys = "=0.38.1"
sgp30 = "=0.3.2"
shared-bus = { version = "=0.3.1", features = ["std"] }
shtcx = "=0.11.0"
veml6030 = "=0.1.2"
