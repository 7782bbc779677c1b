[package]
name = "movie_engine"
version = "0.1.0"
edition = "2021"
publish = false

[dependencies]
actix-cors = "*"
actix-web = "*"
chrono = "*"
env_logger = "*"
log = "*"
mime = "*"
openai-api-rs = "*"
reqwest = "*"
serde = { version = "*", features = ["derive"] }
serde_json = "*"
serde_yaml = "*"
spinners = "*"
