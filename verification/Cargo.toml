[package]
name = "video_transcriber"
version = "0.1.0"
edition = "2021"
publish = false

[dependencies]
dotenv = "0.15"
log = "0.4"
pretty_env_logger = "0.5"
reqwest = { version = "0.11", features = ["json"] }
serde = { version = "1", features = ["derive"] }
serde_json = "1"
thiserror = "1"
tokio = { version = "1", features = ["full"] }
url = "2"
