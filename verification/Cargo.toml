[package]
name = "client_downloader"
version = "0.1.0"
edition = "2021"
publish = false

[dependencies]
sha1 = "*"
md-5 = "*"
serde = { version = "*", features = ["derive"] }
serde_json = "*"
chrono = "*"
reqwest = { version = "*", default-features = false, features = ["blocking"] }
