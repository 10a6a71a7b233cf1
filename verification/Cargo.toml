[package]
name = "beatsaber_map"
version = "0.1.0"
edition = "2021"
publish = false

[dependencies]
ogg_metadata = "0.4"
reqwest = { version = "0.12", default-features = false, features = ["blocking", "rustls-tls"] }
semver = "1"
serde_json = "1"
zip = { version = "0.6", default-features = false, features = ["deflate"] }

[dev-dependencies]
ogg = "*"
