[package]
name = "forum_backend"
version = "0.1.0"
edition = "2021"
publish = false

[dependencies]
actix-cors = "0.7"
actix-web = { version = "=4.18.1", default-features = false, features = ["macros"] }
anyhow = "1"
argon2 = "=0.5.3"
async-trait = "0.1"
chrono = { version = "=0.4.45", features = ["serde"] }
clamav-rs = "=0.5.5"
dotenv = "0.15"
env_logger = "0.11"
futures = "0.3"
jsonwebtoken = "=9.3.1"
log = "0.4"
sea-orm = { version = "=0.12.15", default-features = false, features = ["sqlx-mysql", "runtime-tokio-rustls", "macros", "with-chrono", "with-uuid"] }
sea-orm-migration = { version = "=0.12.15", default-features = false, features = ["sqlx-mysql", "runtime-tokio-rustls"] }
serde = { version = "1", features = ["derive"] }
serde_json = { version = "=1.0.154", features = ["preserve_order"] }
slug = "=0.1.6"
thiserror = "1"
uuid = { version = "=1.29.0", features = ["v4", "serde"] }
validator = { version = "=0.18.1", features = ["derive"] }
