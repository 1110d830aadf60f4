[package]
name = "venice_cli"
version = "0.1.0"
edition = "2021"
publish = false

[dependencies]
vex-v5-serial = { version = "=0.5.2", default-features = false }
tokio = { version = "=1.53.2", features = ["full"] }
serde = { version = "=1.0.229", features = ["derive"] }
serde_json = "=1.0.151"
toml = "=0.9.8"
toml_edit = "=0.23.9"
directories = "=6.0.0"
clap = { version = "=4.6.7", features = ["derive"] }
semver = "=1.0.28"
reqwest = { version = "=0.13.5", default-features = false }
indicatif = "=0.18.6"
