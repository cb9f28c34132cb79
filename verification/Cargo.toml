[package]
name = "openinput"
version = "0.1.0"
edition = "2021"
publish = false

[dependencies]
heapless = "0.8"
hash32 = "0.3"
usb-device = "0.3"
usbd-hid = "0.8"
serde = { version = "1", default-features = false, features = ["derive"] }
ssmarshal = { version = "1", default-features = false }
