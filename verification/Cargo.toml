[package]
name = "wevebot"
version = "0.1.0"
edition = "2021"
publish = false

[dependencies]
chrono = "=0.4.45"
irc = "=1.1.0"
reqwest = { version = "=0.12.28", features = ["json"] }
tokio = { version = "=1.54.1", features = ["macros", "rt-multi-thread"] }
futures = "=0.3.34"
serde = { version = "=1.0.229", features = ["derive"] }
failure = "=0.1.8"
env_logger = "=0.11.11"
log = "=0.4.35"

[dev-dependencies]
lazy-regex = "=3.6.2"
