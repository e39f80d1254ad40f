[package]
name = "rover_composition"
version = "0.1.0"
edition = "2021"
publish = false

[dependencies]
apollo-parser = "*"
apollo-federation-types = "*"
serde = { version = "*", features = ["derive"] }
serde_yaml = "*"
url = "*"
reqwest = { version = "*", default-features = false, features = ["blocking"] }
