[package]
name = "ffpipeline"
version = "0.1.0"
edition = "2021"
publish = false

[dependencies]
log = "0.4"
serde = { version = "1", features = ["derive"] }
serde_json = "1"
tokio = { version = "1", features = ["process", "io-util", "io-std", "fs", "rt", "macros"] }
time = { version = "0.3", features = ["serde", "formatting", "parsing"] }
schemars = "*"
simple-expand-tilde = "*"
