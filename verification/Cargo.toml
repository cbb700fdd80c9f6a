[package]
name = "package_json_parser"
version = "0.1.0"
edition = "2021"
publish = false

[dependencies]
jsonc-parser = "=0.26.3"
miette = { version = "=7.6.0", features = ["fancy"] }
rustc-hash = "=2.1.3"
serde = { version = "=1.0.229", features = ["derive"] }
serde_json = "=1.0.154"
thiserror = "=2.0.21"
validator = "*"

[dev-dependencies]
lazy-regex = "=3.6.2"
