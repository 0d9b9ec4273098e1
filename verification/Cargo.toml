[package]
name = "hpdp_types"
version = "0.1.0"
edition = "2021"
publish = false

[dependencies]
chrono = "=0.4.45"
clap = { version = "=4.6.7", features = ["derive"] }
serde = { version = "=1.0.229", features = ["derive"] }
serde_json = "=1.0.154"
csv = "=1.4.0"
uuid = { version = "=1.29.0", features = ["v4"] }

[dev-dependencies]
regex = "1"
