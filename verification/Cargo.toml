[package]
name = "backend"
version = "0.1.0"
edition = "2021"
publish = false

[dependencies]
actix-web = { version = "4", default-features = false, features = ["macros", "compress-gzip"] }
env_logger = "0.11"
log = "0.4"
sqlx = { version = "0.8", default-features = false, features = ["runtime-tokio", "postgres"] }
