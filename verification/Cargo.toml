[package]
name = "torbridge"
version = "0.1.0"
edition = "2021"
publish = false

[dependencies]
base64 = "0.13"
rand = "0.8"
reqwest = { version = "0.11", default-features = false, features = ["blocking", "socks", "rustls-tls"] }
serde = { version = "1", features = ["derive"] }
serde_json = "1"
signal-hook = "0.3"
sysinfo = "0.29"
chrono = "0.4"
chrome_native_messaging = "*"
libtor = "*"
