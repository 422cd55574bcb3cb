[package]
name = "channel_helper"
version = "0.1.0"
edition = "2021"
publish = false

[dependencies]
anyhow = "*"
axum = "*"
base64 = "=0.22.1"
chrono = "*"
clap = { version = "*", features = ["env"] }
dotenvy = "*"
humantime = "*"
image = "=0.25.10"
imghash = "=2.0.0"
log = "*"
pretty_env_logger = "*"
reqwest = "*"
serde = { version = "*", features = ["derive"] }
takecell = "=0.1.1"
teloxide = { version = "=0.17.0", features = ["macros"] }
tokio = { version = "*", features = ["full"] }
tower = "*"
tower-http = { version = "*", features = ["cors"] }
uuid = { version = "=1.27.0", features = ["v7"] }
