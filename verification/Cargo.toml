[package]
name = "usbhost"
version = "0.1.0"
edition = "2021"
publish = false

[dependencies]
lazy_static = "*"
libc = "*"
libusb1-sys = "*"
