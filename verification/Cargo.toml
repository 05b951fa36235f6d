[package]
name = "translator_bot"
version = "0.1.0"
edition = "2021"
rust-version = "1.95"
publish = false

[dependencies]
serde_json = "=1.0.154"
teloxide = "=0.17.0"
reqwest = { version = "=0.12.28", features = ["json"] }
tokio = { version = "=1.54.1", features = ["macros", "rt-multi-thread"] }
dotenv = "=0.15.0"
env_logger = "=0.11.11"
takecell = "=0.1.1"
