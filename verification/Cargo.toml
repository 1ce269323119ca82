[package]
name = "clin"
version = "0.1.0"
edition = "2021"
publish = false

[dependencies]
chrono = "=0.4.45"
uuid = { version = "=1.29.0", features = ["v4"] }
crossterm = "=0.29.0"
directories = "=6.0.0"
serde = { version = "=1.0.229", features = ["derive"] }
toml = "=1.1.8"
serde_json = "1"
clap = { version = "4", features = ["derive"] }
