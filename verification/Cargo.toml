[package]
name = "reweather"
version = "0.1.0"
edition = "2021"
publish = false

[dependencies]
embedded-hal = "=1.0.0-alpha.9"
embedded-svc = "0.24"
esp-idf-hal = "0.40"
esp-idf-svc = "0.45"
esp-idf-sys = "0.32"
