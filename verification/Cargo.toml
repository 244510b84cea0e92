[package]
name = "authcore"
version = "0.1.0"
edition = "2021"
publish = false

[dependencies]
bcrypt = "0.15"
jsonwebtoken = "9"
serde_json = "1"
chrono = "0.4"
rand = "0.8"
uuid = { version = "1", features = ["v4", "v7"] }
