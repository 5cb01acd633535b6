[package]
name = "sleepwatch_client"
version = "0.1.0"
edition = "2021"
publish = false

[dependencies]
serde_json = "=1.0.151"
gloo-net = "=0.7.0"
web-sys = { version = "*", features = ["RequestCredentials"] }
