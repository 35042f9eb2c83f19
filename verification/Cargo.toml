[package]
name = "shop_till"
version = "0.1.0"
edition = "2021"
publish = false

[dependencies]
chrono = "0.4"
notify-rust = "4"
rfd = "0.10"
serde = { version = "1", features = ["derive"] }
serde_json = "1"
serde_yaml = "0.9"
