[package]
name = "bitvault_app"
version = "0.1.0"
edition = "2021"
publish = false

[dependencies]
bip39 = "=2.2.2"
rand = "=0.8.8"
serde = { version = "=1.0.229", features = ["derive"] }
serde_json = "=1.0.154"
dirs = "=5.0.1"
keyring = "=2.3.3"
qrcode = { version = "=0.14.1", default-features = false }
bdk = { version = "=0.29.0", default-features = false, features = ["std"] }
quircs = "=0.10.3"
image = { version = "=0.25.10", default-features = false, features = ["png", "jpeg"] }
chrono = { version = "=0.4.45", default-features = false, features = ["alloc"] }
