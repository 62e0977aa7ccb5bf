[package]
name = "password_manager_backend"
version = "0.1.0"
edition = "2021"
publish = false

[dependencies]
aes-gcm = "=0.10.3"
argon2 = "=0.5.3"
chrono = { version = "=0.4.45", features = ["serde"] }
dirs = "=5.0.1"
num_cpus = "=1.17.0"
rand = "=0.8.8"
rand_chacha = "=0.3.1"
serde = { version = "=1.0.229", features = ["derive"] }
serde_cbor = "=0.11.2"
tauri = { version = "2", default-features = false }
thiserror = "=1.0.69"
tokio = { version = "=1.54.1", features = ["fs", "sync"] }
url = "=2.5.8"
uuid = { version = "=1.29.0", features = ["v4", "serde"] }
zeroize = { version = "=1.9.1", features = ["derive"] }
