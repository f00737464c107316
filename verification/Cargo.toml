[package]
name = "nes_mouse"
version = "0.1.0"
edition = "2021"
publish = false

[dependencies]
anyhow = "1"
esp32-nimble = "*"
esp-idf-hal = "*"
esp-idf-svc = "*"
