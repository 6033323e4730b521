[package]
name = "esp_thing"
version = "0.1.0"
edition = "2021"
publish = false

[dependencies]
anyhow = "1"
byteorder = "1"
embedded-svc = "0.23"
esp-idf-hal = "0.39"
esp-idf-svc = "0.43"
esp-idf-sys = "0.31"
include_cstr = "0.1"
rand = "0.8"
uuid = { version = "1", features = ["v4"] }
