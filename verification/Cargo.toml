[package]
name = "keyboard-rs"
version = "0.1.0"
edition = "2021"
publish = false

[dependencies]
serde = { version = "1", features = ["derive"] }
serde_json = "1"
serialport = { version = "4", default-features = false }
rdev = "0.5"
ksni = { version = "0.3", features = ["blocking"] }
signal-hook = "0.3"
image = { version = "0.25", default-features = false, features = ["png"] }
gtk4 = "0.9"
