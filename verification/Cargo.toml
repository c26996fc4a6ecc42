[package]
name = "rustycrab_api"
version = "0.1.0"
edition = "2021"
publish = false

[dependencies]
twilight-model = "=0.15.4"
serde = { version = "=1.0.229", features = ["derive"] }
reqwest = { version = "=0.11.27", default-features = false, features = ["json"] }
