[package]
name = "syncer"
version = "0.1.0"
edition = "2021"
publish = false

[dependencies]
anyhow = "1"
chrono = "0.4"
clap = { version = "4", features = ["derive"] }
path-clean = "1"
pathsearch = "0.2"
serde = { version = "1", features = ["derive"] }
serde_json = "1"
subprocess = "0.2"
tempfile = "3"
toml = "0.8"
tracing = "0.1"
tracing-subscriber = "0.3"
