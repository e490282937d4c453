[package]
name = "cargo_wix"
version = "0.1.0"
edition = "2021"
publish = false

[dependencies]
semver = "1"
toml = "*"
mustache = "*"
uuid = { version = "*", features = ["v4"] }

[dev-dependencies]
regex = "*"
