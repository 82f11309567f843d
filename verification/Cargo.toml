[package]
name = "pkgwire"
version = "0.1.0"
edition = "2021"
publish = false

[dependencies]
purl = "*"
serde = { version = "1", features = ["derive"] }
serde_json = "1"
schemars = "0.8"
chrono = { version = "0.4", features = ["serde"] }
