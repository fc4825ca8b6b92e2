[package]
name = "libusb_async"
version = "0.1.0"
edition = "2021"
publish = false

[dependencies]
libusb-sys = "0.2"
libc = "0.2"
mio = "0.6"
bit-set = "0.5"
