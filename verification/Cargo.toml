[package]
name = "servo_core"
version = "0.1.0"
edition = "2021"
publish = false

[dependencies]
embassy-executor = "*"
embassy-time = "*"
esp-hal = "*"
esp-hal-embassy = "*"
