[package]
name = "bad_usb"
version = "0.1.0"
edition = "2021"
publish = false

[dependencies]
rusb = "*"
usb-gadget = "*"
usbd-hid = "*"
inotify = "*"
