[package]
name = "silva"
version = "0.1.0"
edition = "2021"
publish = false

[dependencies]
chrono = "0.4"
semver = "1"
textwrap = "0.16"
serde = { version = "1", features = ["derive"] }
serde_json = "1"
toml = "0.8"
clap = { version = "4", features = ["derive"] }
