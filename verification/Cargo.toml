[package]
name = "nibl_search"
version = "0.1.0"
edition = "2021"
publish = false

[dependencies]
getopts = "0.2"
serde = { version = "1", features = ["derive"] }
reqwest = { version = "0.12", default-features = false, features = ["blocking", "json", "rustls-tls"] }
