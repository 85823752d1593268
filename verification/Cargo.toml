[package]
name = "auvro"
version = "0.1.0"
edition = "2021"
publish = false

[dependencies]
aes-gcm = "0.10"
base64 = "0.22"
blake3 = { version = "1", features = ["pure"] }
chrono = { version = "0.4", default-features = false, features = ["clock", "serde", "std"] }
dirs = "5"
dotenvy = "0.15"
eframe = { version = "0.32", default-features = false, features = ["glow", "x11", "default_fonts"] }
image = { version = "0.25", default-features = false, features = ["png", "jpeg"] }
keyring = { version = "3", features = ["linux-native"] }
pbkdf2 = { version = "0.12", default-features = false, features = ["hmac"] }
rand = "0.8"
reqwest = { version = "0.12", default-features = false, features = ["blocking", "json", "rustls-tls"] }
serde = { version = "1", features = ["derive"] }
serde_json = "1"
sha2 = "0.10"
tokio = { version = "1", features = ["rt-multi-thread", "time", "sync"] }
tokio-util = "0.7"
uuid = { version = "1", features = ["v4", "serde"] }
