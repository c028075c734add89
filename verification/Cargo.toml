[package]
name = "reachfms"
version = "0.1.0"
edition = "2021"
publish = false

[dependencies]
crossbeam-channel = "*"
png = "*"
serde = { version = "*", features = ["derive"] }
serde_json = "*"
local-ip-address = "*"
qrcode-generator = "*"
chrono = "*"
