[package]
name = "boxing_gym_backend"
version = "0.1.0"
edition = "2021"
publish = false

[dependencies]
actix-web = "4"
actix-cors = "0.7"
bcrypt = "0.15"
chrono = "0.4"
env_logger = "0.11"
jsonwebtoken = "9"
log = "0.4"
serde = { version = "1", features = ["derive"] }
serde_json = "1"
sqlx = { version = "0.7", features = ["runtime-tokio", "sqlite"] }
uuid = { version = "1", features = ["v4"] }
validator = { version = "0.16", features = ["derive"] }
