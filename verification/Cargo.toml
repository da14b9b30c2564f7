[package]
name = "intangbo_driver"
version = "0.1.0"
edition = "2021"
publish = false

[dependencies]
anyhow = "*"
evdev-rs = "*"
lock_api = "*"
parking_lot = "*"
rusb = "*"
