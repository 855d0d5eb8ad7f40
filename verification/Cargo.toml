[package]
name = "ghwebhook"
version = "0.1.0"
edition = "2021"
publish = false

[dependencies]
serde = { version = "*", features = ["derive"] }
serde_json = "*"
serde_yaml = "*"
git2 = "*"
glob = "*"
tempdir = "*"
dotenvy = "*"
config = "*"
tokio = { version = "*", features = ["macros", "rt-multi-thread"] }
futures-util = "*"
reqwest = { version = "*", default-features = false, features = ["json"] }
rabbitmq-stream-client = "*"
