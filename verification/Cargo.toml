[package]
name = "ged_auth"
version = "0.1.0"
edition = "2021"
publish = false

[dependencies]
rust-argon2 = "*"
cookie = { version = "*", features = ["signed"] }
uuid = { version = "*", features = ["v4"] }
actix-web = "3"
actix-identity = "0.3"
actix-service = "1"
futures = "0.3"
serde = { version = "*", features = ["derive"] }
serde_json = "*"
