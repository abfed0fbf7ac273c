[package]
name = "xiaoxin_esp32"
version = "0.1.0"
edition = "2021"
publish = false

[dependencies]
anyhow = "1"
crossbeam-channel = "0.5"
display-interface-spi = "0.4"
embedded-graphics = "0.8"
embedded-hal = "0.2"
esp-idf-hal = "*"
esp-idf-svc = "*"
esp-idf-sys = "*"
futures = "0.3"
log = "0.4"
mipidsi = "0.7"
rgb = "0.8"
serde_json = "1"
shared-bus = "0.3"
thiserror = "1"
