[package]
name = "exile_rs"
version = "0.1.0"
edition = "2021"
publish = false

[dependencies]
chrono = "*"
futures-util = "*"
regex = "*"
reqwest = { version = "*", features = ["stream"] }
scraper = "*"
serde = { version = "*", features = ["derive"] }
serde_json = "*"
thiserror = "*"
tokio = { version = "*", features = ["fs", "io-util", "macros", "rt", "sync"] }
tokio-util = "*"
tracing = "*"
zip = { version = "*", default-features = false, features = ["deflate"] }
