[package]
name = "lbt"
version = "0.1.0"
edition = "2021"
publish = false

[dependencies]
zip = { version = "*", default-features = false, features = ["deflate"] }
serde = { version = "*", features = ["derive"] }
serde_json = "*"
toml = "*"
clap = { version = "*", features = ["derive"] }
dirs = "*"
spinoff = "*"
anyhow = "*"
reqwest = { version = "*", default-features = false, features = ["blocking", "json", "rustls-tls"] }
