[package]
name = "web_auth"
version = "0.1.0"
edition = "2021"
publish = false

[dependencies]
actix-web = "=3.3.3"
chrono = "=0.4.45"
futures = "=0.3.34"
hmac = "=0.12.1"
jwt = "=0.16.0"
rust-argon2 = "=3.0.0"
serde = { version = "=1.0.229", features = ["derive"] }
sha2 = "=0.10.9"
time = "=0.2.27"
