[package]
name = "icloud_auth"
version = "0.1.0"
edition = "2021"
publish = false

[dependencies]
aes = "=0.8.4"
base64 = "=0.21.7"
cbc = { version = "=0.1.2", features = ["alloc"] }
hmac = "=0.12.1"
libc = "=0.2.191"
log = "=0.4.34"
pbkdf2 = "=0.12.2"
plist = "=1.10.3"
rand = "=0.8.8"
reqwest = { version = "=0.11.27", default-features = false, features = ["json", "cookies", "rustls-tls"] }
serde = { version = "=1.0.229", features = ["derive"] }
serde_json = "=1.0.154"
sha2 = "=0.10.9"
srp = "=0.6.0"
thiserror = "=1.0.69"
tokio = { version = "=1.54.1", features = ["rt", "sync", "macros"] }
uuid = { version = "=1.29.0", features = ["v4"] }
