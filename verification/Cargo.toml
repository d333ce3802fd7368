[package]
name = "clearly_defined"
version = "0.1.0"
edition = "2021"
publish = false

[dependencies]
semver = "1"
chrono = { version = "0.4", default-features = false, features = ["std"] }
serde = "1"
serde_json = "1"
http = "1"
bytes = "1"
