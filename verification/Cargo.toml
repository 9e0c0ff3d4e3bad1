[package]
name = "usbarmory"
version = "0.1.0"
edition = "2021"
publish = false

[dependencies]
usb-device = "0.2"
heapless = "0.5"
littlefs2 = "0.1"
digest = "0.8"
generic-array = "0.13"
typenum = "1"
rand_core = "0.5"
