[package]
name = "catools"
version = "0.1.0"
edition = "2021"
publish = false

[dependencies]
chrono = "0.4"
dialoguer = "*"
dirs = "*"
reqwest = { version = "*", features = ["blocking"] }
serde = { version = "1", features = ["derive"] }
serde_json = "1"
thiserror = "*"
toml = "*"
zip = { version = "*", default-features = false, features = ["deflate"] }
