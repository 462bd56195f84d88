[package]
name = "chatgbt_buddy"
version = "0.1.0"
edition = "2021"
publish = false

[dependencies]
atty = "0.2"
env_logger = "0.10"
log = "0.4"
reqwest = { version = "0.11", features = ["json", "multipart"] }
serde = { version = "1", features = ["derive"] }
serde_json = "1"
structopt = "0.3"
tokio = { version = "1", features = ["full"] }
whoami = "1"
