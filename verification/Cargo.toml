[package]
name = "schematic"
version = "0.1.0"
edition = "2021"
publish = false

[dependencies]
serde = "1"
serde_json = "1"
serde_yaml = "0.9"
serde_path_to_error = "0.1"
toml = "0.8"
reqwest = { version = "0.12", default-features = false, features = ["blocking"] }
