[package]
name = "auth"
version = "0.1.0"
edition = "2021"
publish = false

[dependencies]
pbkdf2 = { version = "0.12", features = ["hmac"] }
sha2 = "0.10"
hex = "0.4"
rand = "0.8"
serde = { version = "1", features = ["derive"] }
serde_json = "1"
actix-web = { version = "4", default-features = false, features = ["macros"] }
actix-cors = "0.7"
actix-web-httpauth = "0.8"
awc = { version = "3", default-features = false }
reqwest = { version = "0.12", default-features = false }
mongodb = "2"
anyhow = "1"
env_logger = "0.11"
mime = "0.3"
