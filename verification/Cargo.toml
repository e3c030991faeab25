[package]
name = "inferno_cli"
version = "0.1.0"
edition = "2021"
publish = false

[dependencies]
anyhow = "1"
csv = "1"
serde_json = "1"
serde_yaml = "0.9"
toml = "0.8"
serde = { version = "1", features = ["derive"] }
tokio = { version = "1", features = ["fs", "rt", "macros", "time"] }
