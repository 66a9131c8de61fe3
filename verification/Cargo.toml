[package]
name = "ao3"
version = "0.1.0"
edition = "2021"
publish = false

[dependencies]
scraper = "=0.29.0"
ego-tree = "=0.11.1"
reqwest = { version = "=0.12.28", default-features = false, features = ["rustls-tls"] }
thiserror = "=2.0.21"
lazy_static = "=1.5.1"
