[package]
name = "rustman"
version = "0.1.0"
edition = "2021"
publish = false

[dependencies]
iced = { version = "=0.12.1", default-features = false, features = ["tokio"] }
reqwest = { version = "=0.12.28", default-features = false, features = ["rustls-tls"] }
