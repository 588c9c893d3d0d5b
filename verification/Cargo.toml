[package]
name = "altctrl"
version = "0.1.0"
edition = "2021"
publish = false

[dependencies]
winit = "0.30"
rdev = "*"
softbuffer = "0.4"
rusttype = "0.9"
