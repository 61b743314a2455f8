[package]
name = "telegram_relay"
version = "0.1.0"
edition = "2021"
publish = false

[dependencies]
alfred-core = "=0.3.0"
env_logger = "=0.11.11"
takecell = "=0.1.1"
teloxide = "=0.17.0"
tokio = { version = "=1.54.1", features = ["fs", "macros", "rt-multi-thread"] }
