[package]
name = "openvscode_farm"
version = "0.1.0"
edition = "2021"
publish = false

[dependencies]
rand = "0.8"
oauth2 = "4"
actix-web = "4"
actix-session = { version = "0.9", features = ["cookie-session"] }
actix-http = "3"
tokio = { version = "1", features = ["process", "macros", "rt-multi-thread"] }
reqwest = "0.11"
serde = { version = "1", features = ["derive"] }
serde_json = "1"
log = "0.4"
env_logger = "0.10"
dotenv = "0.15"
ring = "0.16"
futures = "0.3"
