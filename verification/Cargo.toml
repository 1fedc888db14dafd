[package]
name = "rustwasmc"
version = "0.1.0"
edition = "2021"
publish = false

[dependencies]
binary-install = "*"
curl = "*"
semver = "*"
serde_json = "*"
which = "*"

[dev-dependencies]
tempfile = "*"
