[package]
name = "logs_api"
version = "0.1.0"
edition = "2021"
publish = false

[dependencies]
argon2 = "0.5"
chrono = "0.4"
jsonwebtoken = "9"
serde = { version = "1", features = ["derive"] }
serde_json = "1"
axum = "0.6"
tokio = { version = "1", features = ["macros", "rt-multi-thread"] }
mongodb = "2"
dotenv = "0.15"
tower-http = { version = "0.4", features = ["cors"] }
rand_core = { version = "0.6", features = ["getrandom"] }
