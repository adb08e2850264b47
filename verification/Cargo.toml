[package]
name = "pumpkin"
version = "0.1.0"
edition = "2021"
publish = false

[dependencies]
crc-fast = "*"
rand = "*"
aes = "0.8"
cfb8 = "0.8"
bytes = "1"
tokio = { version = "1", features = ["io-util"] }
thiserror = "*"
serde = { version = "1", features = ["derive"] }
serde_json = "1"
heck = "*"
proc-macro2 = "1"
quote = "1"
syn = { version = "2", features = ["full"] }
