[package]
name = "inner_shelter"
version = "0.1.0"
edition = "2021"
publish = false

[dependencies]
serde_json = "1"
serde_urlencoded = "0.7"
jsonwebtoken = "9"
serde = { version = "1", features = ["derive"] }
actix-web = "4"
actix-ws = "0.2"
actix-rt = "2"
actix-cors = "0.7"
tokio = { version = "1", features = ["macros", "rt", "sync"] }
futures-util = "0.3"
redis = { version = "0.23", features = ["aio", "tokio-comp"] }
thiserror = "1"
env_logger = "0.11"
log = "0.4"
