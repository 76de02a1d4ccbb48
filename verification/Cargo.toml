[package]
name = "input_rs"
version = "0.1.0"
edition = "2021"
publish = false

[dependencies]
evdev = "0.10"
