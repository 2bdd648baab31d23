[package]
name = "authcore"
version = "0.1.0"
edition = "2021"
publish = false

[dependencies]
argonautica = "0.2"
rust-argon2 = "2"
rand = "0.8"
chrono = "0.4"
serde = { version = "1", features = ["derive"] }
dotenv = "0.15"
