[package]
name = "enchiridion"
version = "0.1.0"
edition = "2021"
publish = false

[dependencies]
chrono = "=0.4.45"
argon2 = "=0.4.1"
jwt = "=0.16.0"
hmac = "=0.12.1"
sha2 = "=0.10.9"
serde = { version = "=1.0.229", features = ["derive"] }
serde_json = "=1.0.154"
regex = "=1.13.1"
rand = "=0.8.8"
lipsum = "=0.8.2"
secrecy = "=0.8.0"
dotenvy = "=0.15.7"
validator = "0.16"
