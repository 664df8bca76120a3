[package]
name = "flixparty"
version = "0.1.0"
edition = "2021"
publish = false

[dependencies]
anyhow = "*"
figment = { version = "*", features = ["toml"] }
rdev = { version = "*", features = ["serialize"] }
redis = "*"
serde = { version = "*", features = ["derive"] }
serde_json = "*"
tracing = "*"
tracing-subscriber = "*"
xid = "*"
yansi = "*"
