[package]
name = "dictionary"
version = "0.1.0"
edition = "2021"
publish = false

[dependencies]
scraper = { version = "=0.16.0", features = ["deterministic"] }
regex = "=1.13.1"
reqwest = { version = "0.11", default-features = false, features = ["rustls-tls", "json"] }
tokio = { version = "1", features = ["macros", "rt-multi-thread", "time"] }
futures = "0.3"
serde = { version = "1", features = ["derive"] }
serde_json = "1"
fake-useragent = "=0.1.3"
