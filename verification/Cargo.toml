[package]
name = "flatcat"
version = "0.1.0"
edition = "2021"
publish = false

[dependencies]
anyhow = "1"
serde_json = { version = "1", features = ["preserve_order"] }
serde_yaml = "0.8"
structopt = "0.3"
thiserror = "1"
toml = { version = "0.5", features = ["preserve_order"] }
yansi = "0.5"
