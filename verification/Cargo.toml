[package]
name = "aerogu34"
version = "0.1.0"
edition = "2021"
publish = false

[dependencies]
heapless = "=0.8.0"
log = "=0.4.35"
cortex-m = "=0.7.10"
embassy-nrf = { version = "=0.11.0", default-features = false, features = ["nrf52840"] }
rmk = { version = "=0.9.0", default-features = false }
