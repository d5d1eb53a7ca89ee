[package]
name = "ua_tts"
version = "0.1.0"
edition = "2021"
publish = false

[dependencies]
num2words = "*"
serde = { version = "1", features = ["derive"] }
actix-web = "4"
