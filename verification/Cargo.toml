[package]
name = "konstruct"
version = "0.1.0"
edition = "2021"
publish = false

[dependencies]
aes-gcm = "0.10"
anyhow = "1"
argon2 = "0.5"
base64 = "=0.22.1"
bytes = "=1.12.1"
crossterm = { version = "0.28", features = ["event-stream"] }
dirs = "5"
ed25519-dalek = "=2.2.0"
futures = "0.3"
h2 = "=0.4.20"
hex = "=0.4.3"
http = "=1.5.0"
prost = "=0.13.5"
rand = "=0.8.8"
ratatui = "0.29"
rustls = { version = "0.23", default-features = false, features = ["ring", "std", "tls12", "logging"] }
rustls-native-certs = "0.7"
serde = { version = "1", features = ["derive"] }
serde_json = "1"
tokio = { version = "1", features = ["rt-multi-thread", "macros", "sync", "time", "net", "io-util"] }
tokio-rustls = { version = "0.26", default-features = false, features = ["ring", "tls12", "logging"] }
tracing = "0.1"
uuid = { version = "=1.29.0", features = ["v4"] }
webpki-roots = "0.26"
