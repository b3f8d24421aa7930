[package]
name = "cpa_route_control"
version = "0.1.0"
edition = "2021"
publish = false

[dependencies]
dotenvy = "=0.15.7"
keyring = "=3.6.3"
reqwest = { version = "=0.12.28", default-features = false, features = ["json"] }
serde = { version = "1", features = ["derive"] }
serde_json = "1"
