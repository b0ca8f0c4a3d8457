[package]
name = "chat_delivery"
version = "0.1.0"
edition = "2021"
publish = false

[dependencies]
dashmap = "6"
serde_json = "1"
serde = { version = "1", features = ["derive"] }
actix-web = "4"
actix-ws = "0.3"
actix-cors = "0.7"
sqlx = { version = "0.8", default-features = false, features = ["mysql", "runtime-tokio", "chrono"] }
tokio = { version = "1", features = ["sync", "rt"] }
chrono = { version = "0.4", features = ["serde"] }
jsonwebtoken = "9"
futures-util = "0.3"
log = "0.4"
env_logger = "0.11"
dotenv = "0.15"
