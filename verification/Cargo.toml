[package]
name = "sunrise_launcher"
version = "0.1.0"
edition = "2021"
publish = false

[dependencies]
fs2 = "0.4"
futures-util = "0.3"
hex = "0.4"
pelite = "0.10"
reqwest = { version = "0.12", default-features = false, features = ["json", "stream", "rustls-tls"] }
serde = { version = "1", features = ["derive"] }
serde_json = "1"
sha2 = "*"
tempfile = "3"
thiserror = "2"
tokio = { version = "1", features = ["fs", "io-util", "rt"] }
zip = { version = "*", default-features = false, features = ["deflate"] }
