[package]
name = "usblog"
version = "0.1.0"
edition = "2021"
publish = false

[dependencies]
critical-section = "*"
defmt = "*"
embassy-futures = "*"
embassy-time = "*"
embassy-usb = "*"
portable-atomic = "*"
static_cell = "*"
