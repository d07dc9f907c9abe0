[package]
name = "fjx"
version = "0.1.0"
edition = "2021"
publish = false

[dependencies]
glob = "0.3"
clap = { version = "4", features = ["derive"] }
console = "0.15"
indicatif = "0.17"
rusb = "0.9"
serde = { version = "1", features = ["derive"] }
serde_json = "1"
toml = "0.8"

[dev-dependencies]
tempfile = "3"
