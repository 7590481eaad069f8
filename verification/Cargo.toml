[package]
name = "gacha"
version = "0.1.0"
edition = "2021"
publish = false

[dependencies]
rand = "0.8"
serde = { version = "1", features = ["derive"] }
serde_json = "1"
toml = "0.8"
log = "0.4"
pretty_env_logger = "0.5"
dotenv = "0.15"
image = "0.24"
reqwest = { version = "0.11", features = ["json"] }
tokio = { version = "1", features = ["macros", "rt-multi-thread"] }
poise = "0.6"
sheets = "*"
a1_notation = "*"
