[package]
name = "ntf"
version = "0.1.0"
edition = "2021"
publish = false

[dependencies]
clap = "=2.34.0"
log = "=0.4.34"
reqwest = { version = "=0.11.27", features = ["blocking", "json"] }
serde = { version = "=1.0.229", features = ["derive"] }
serde_json = "=1.0.154"
stderrlog = "=0.5.4"
toml = "=0.5.11"
