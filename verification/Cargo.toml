[package]
name = "deps_status"
version = "0.1.0"
edition = "2021"
publish = false

[dependencies]
semver = "1"
toml = "0.8"
error-chain = "0.12"
reqwest = { version = "0.12", default-features = false, features = ["blocking", "rustls-tls"] }
rocket = { version = "0.5", default-features = false }
tempdir = "0.3"
