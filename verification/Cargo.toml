[package]
name = "pocs"
version = "0.1.0"
edition = "2021"
publish = false

[dependencies]
serde = { version = "1", features = ["derive"] }
serde_json = "1"
convert_case = "0.6"
num = "0.4"
codegen = "0.2"
serde_yaml = "0.9"
blake2 = "0.10"
