[package]
name = "user_auth"
version = "0.1.0"
edition = "2021"
publish = false

[dependencies]
actix-web = "4"
dotenv = "0.15"
hmac = "0.12"
jwt = "0.16"
rand = "0.8"
serde = { version = "1", features = ["derive"] }
sha2 = "0.10"
sha256 = { version = "1", default-features = false }
