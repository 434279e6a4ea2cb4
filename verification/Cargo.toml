[package]
name = "dot15d4"
version = "0.1.0"
edition = "2021"
publish = false

[dependencies]
nrf52840-hal = { version = "=0.19.0", default-features = false }
critical-section = "=1.2.0"
