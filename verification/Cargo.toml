[package]
name = "boluo"
version = "0.1.0"
edition = "2021"
publish = false

[dependencies]
regex = "=1.13.1"
base64 = "=0.12.3"
ring = "=0.16.20"
uuid = { version = "=0.8.2", features = ["v1", "v4"] }
percent-encoding = "=2.3.2"
mime = "=0.3.17"
crc32fast = "=1.5.4"
futures = "=0.3.34"
chrono = { version = "=0.4.45", features = ["serde"] }
serde = { version = "=1.0.229", features = ["derive"] }
serde_json = "=1.0.154"
serde_urlencoded = "=0.7.1"
hyper = "=0.13.10"
tokio = { version = "=0.2.25", features = ["macros", "rt-threaded", "time", "sync"] }
log = "=0.4.35"
blake3 = { version = "=1.8.7", features = ["pure"] }
cookie = "=0.12.0"
time = "=0.1.45"
