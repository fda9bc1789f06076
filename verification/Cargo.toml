[package]
name = "configurator"
version = "0.1.0"
edition = "2021"
publish = false

[dependencies]
anyhow = "1"
base64 = "0.13"
emver = { version = "0.1", features = ["serde"] }
hex = "0.4"
http = "0.2"
nix = "0.26"
rand = "0.8"
reqwest = { version = "0.11", default-features = false, features = ["blocking", "json"] }
serde = { version = "1", features = ["derive"] }
serde_json = "1"
serde_yaml = "0.8"
x509-parser = "0.9"
