[package]
name = "stock_notify"
version = "0.1.0"
edition = "2021"
publish = false

[dependencies]
chrono = "0.4"
flate2 = "1"
futures = "0.3"
imap = "2"
native-tls = "0.2"
rand = "0.8"
regex = "1"
reqwest = { version = "0.11", features = ["gzip"] }
scraper = "*"
serde = { version = "1", features = ["derive"] }
serde_json = "1"
tokio = { version = "1", features = ["macros", "rt-multi-thread", "time", "fs", "io-util"] }
