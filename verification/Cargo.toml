[package]
name = "wayvr"
version = "0.1.0"
edition = "2021"
publish = false

[dependencies]
hyper = { version = "1", features = ["client", "http1"] }
http-body-util = "0.1"
smol = "2"
smol-hyper = "0.1"
async-native-tls = "0.5"
anyhow = "1"
log = "0.4"
serde = { version = "1", features = ["derive"] }
serde_json = "1"
glam = "*"
libc = "0.2"
whisper-rs = "*"
pipewire = "*"
