[package]
name = "virtual_device"
version = "0.1.0"
edition = "2021"
publish = false

[dependencies]
uinput = { version = "0.1", default-features = false }
