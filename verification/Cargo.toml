[package]
name = "screen_key"
version = "0.1.0"
edition = "2021"
publish = false

[dependencies]
iced = "0.4"
iced_native = "0.5"
image = "0.24"
rdev = "0.5"
