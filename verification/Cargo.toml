[package]
name = "squirtinator"
version = "0.1.0"
edition = "2021"
publish = false

[dependencies]
anyhow = "1"
embassy-sync = "*"
esp-idf-svc = "*"
log = "0.4"
rand = { version = "0.8", features = ["small_rng"] }
serde = { version = "1", features = ["derive"] }
serde_urlencoded = "0.7"
toml = "*"
