[package]
name = "unchartable"
version = "0.1.0"
edition = "2021"
publish = false

[dependencies]
uuid = { version = "1", features = ["v4"] }
url = "2"
sha2 = "0.10"
serde = { version = "1", features = ["derive"] }
serde_json = "1"
zip = { version = "2", default-features = false, features = ["deflate"] }
sevenz-rust = "0.6"
unrar = "0.5"
reqwest = { version = "0.12", default-features = false, features = ["json", "stream", "rustls-tls"] }
tokio = { version = "1", features = ["fs", "io-util"] }
futures-util = "0.3"
chrono = "0.4"
fs2 = "0.4"
