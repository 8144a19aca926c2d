[package]
name = "aura"
version = "0.1.0"
edition = "2021"
publish = false

[dependencies]
actix-web = "4"
actix-cors = "0.7"
bcrypt = "0.15"
chrono = "0.4"
env_logger = "0.11"
jsonwebtoken = "9"
serde = { version = "1", features = ["derive"] }
serde_json = { version = "1", features = ["raw_value"] }
sqlx = { version = "0.8", default-features = false, features = ["sqlite", "runtime-tokio"] }
uuid = { version = "1", features = ["v4"] }
