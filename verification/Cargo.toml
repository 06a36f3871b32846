[package]
name = "explain_audit"
version = "0.1.0"
edition = "2021"
publish = false

[dependencies]
anyhow = "1"
askama = "0.12"
axum = "0.7"
clap = { version = "4", features = ["derive"] }
dotenv = "0.15"
futures-util = "0.3"
itertools = "0.12"
log = "0.4"
mysql_async = "0.34"
pretty_env_logger = "0.5"
sqlx = { version = "0.7", features = ["runtime-tokio", "sqlite"] }
tokio = { version = "1", features = ["full"] }
uuid = { version = "1", features = ["v4"] }
