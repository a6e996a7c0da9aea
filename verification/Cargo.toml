[package]
name = "controller"
version = "0.1.0"
edition = "2021"
publish = false

[dependencies]
clearscreen = "*"
gilrs = "*"
serialport = { version = "*", default-features = false }
