[package]
name = "refraction"
version = "0.1.0"
edition = "2021"
publish = false

[dependencies]
serde = { version = "=1.0.229", features = ["derive"] }
serde_json = "=1.0.154"
toml = "=0.8.23"
glob = "=0.3.4"
clap = { version = "=4.6.7", features = ["derive"] }
lsp-server = "*"
notify = "*"
url = "2"
