[package]
name = "j1_accel"
version = "0.1.0"
edition = "2021"
publish = false

[dependencies]
micropb = { version = "=0.5.1", features = ["encode", "decode", "container-heapless"] }
heapless = "=0.8.0"
chrono = { version = "=0.4.45", default-features = false }
embassy-usb = "=0.6.0"
embassy-time = "*"
embassy-sync = "*"
embassy-futures = "*"
embedded-hal = "=1.0.0"
embedded-hal-async = "=1.0.0"
serialport = { version = "=4.10.1", default-features = false }
serde = { version = "=1.0.229", default-features = false, features = ["derive"] }
postcard = { version = "=1.1.3", default-features = false, features = ["experimental-derive"] }
postcard-rpc = { version = "*", default-features = false }
