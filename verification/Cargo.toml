[package]
name = "route_tracker"
version = "0.1.0"
edition = "2021"
publish = false

[dependencies]
url = "*"
tungstenite = "*"
native-tls = "*"
crossbeam-channel = "*"
serde = { version = "1", features = ["derive"] }
serde_json = "1"
toml = "*"
