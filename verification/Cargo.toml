[package]
name = "rusty_chat"
version = "0.1.0"
edition = "2021"
publish = false

[dependencies]
actix = "=0.13.5"
actix-cors = "=0.7.2"
actix-web = { version = "=4.18.1", default-features = false, features = ["macros", "cookies", "ws"] }
actix-web-actors = "=4.3.1"
base64 = "=0.13.1"
chrono = { version = "=0.4.45", default-features = false, features = ["clock", "std", "serde"] }
dotenv = "=0.15.0"
log = "=0.4.35"
rand = "=0.8.8"
rust-argon2 = "=0.8.3"
serde = { version = "=1.0.229", features = ["derive"] }
serde_json = "=1.0.154"
sqlx = { version = "=0.7.4", default-features = false, features = ["sqlite", "runtime-tokio", "chrono"] }
time = "=0.3.55"
tokio = { version = "=1.54.1", features = ["sync"] }
