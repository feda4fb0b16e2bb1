[package]
name = "scrobbler"
version = "0.1.0"
edition = "2021"
publish = false

[dependencies]
log = "0.4"
md5 = "0.7"
reqwest = { version = "0.12", default-features = false, features = ["json", "rustls-tls"] }
serde = { version = "1", features = ["derive"] }
serde_json = "1"
tokio = { version = "1", features = ["io-util", "net", "rt-multi-thread", "time"] }
twoway = "0.2"
url = "2"
