[package]
name = "breadbot"
version = "0.1.0"
edition = "2021"
publish = false

[dependencies]
chrono = "0.4"
dotenv = "0.15"
serenity = { version = "0.12", default-features = false, features = ["client", "gateway", "model", "rustls_backend"] }
sqlite = "*"
tokio = { version = "1", features = ["macros", "rt-multi-thread"] }
