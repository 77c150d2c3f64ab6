[package]
name = "file_encryptor"
version = "2.0.0"
edition = "2021"
publish = false

[dependencies]
aes-gcm = "0.10"
argon2 = "0.5"
sha2 = "0.10"
flate2 = "1"
rand = "0.8"
serde = { version = "1", features = ["derive"] }
serde_json = "1"
chrono = { version = "0.4", features = ["serde"] }
thiserror = "1"
walkdir = "2"
zeroize = "1"
log = "0.4"
