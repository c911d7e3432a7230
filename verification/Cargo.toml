[package]
name = "league_store"
version = "0.1.0"
edition = "2021"
publish = false

[dependencies]
actix-cors = "*"
actix-web = "*"
chrono = { version = "0.4", features = ["serde"] }
diesel = { version = "*", features = ["postgres", "r2d2", "uuid", "chrono"] }
dotenv = "0.15"
env_logger = "*"
listenfd = "*"
serde = { version = "1", features = ["derive"] }
uuid = { version = "*", features = ["v4", "serde"] }
validator = { version = "*", features = ["derive"] }
