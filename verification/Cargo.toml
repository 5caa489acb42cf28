[package]
name = "on_mouse"
version = "0.1.0"
edition = "2021"
publish = false

[dependencies]
evdev = "*"
ratatui = "*"
rdev = "*"
xflags = "*"
