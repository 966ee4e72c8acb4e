[package]
name = "surface-dial-daemon"
version = "0.1.0"
edition = "2021"
publish = false

[dependencies]
directories = "*"
evdev-rs = "*"
hidapi = "*"
lazy_static = "*"
nix = "*"
notify-rust = "*"
parking_lot = "*"
signal-hook = "*"
udev = "*"
