[package]
name = "sentinel"
version = "0.1.0"
edition = "2021"
publish = false

[dependencies]
aes-gcm = "=0.10.3"
chacha20poly1305 = "=0.10.1"
sha2 = "=0.10.9"
rand = "=0.8.8"
uuid = { version = "=1.27.0", features = ["v4"] }
tokio = { version = "=1.53.2", features = ["full"] }
anyhow = "=1.0.104"
serde = { version = "=1.0.229", features = ["derive"] }
serde_json = "=1.0.151"
clap = { version = "=4.6.7", features = ["derive"] }
chrono = { version = "=0.4.45", features = ["serde"] }
tracing = "=0.1.44"
tracing-subscriber = { version = "=0.3.23", features = ["env-filter"] }
hostname = "=0.4.2"
sysinfo = "=0.32.1"
futures-util = "=0.3.34"
tokio-tungstenite = "=0.24.0"
rustls = "=0.23.45"
rustls-pemfile = "=2.2.0"
tokio-rustls = "=0.26.6"
webpki-roots = "=0.26.11"
jsonrpsee = { version = "=0.24.11", features = ["server", "http-client"] }
parking_lot = "=0.12.5"
config = "=0.14.1"
