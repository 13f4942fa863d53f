[package]
name = "articles"
version = "0.1.0"
edition = "2021"
publish = false

[dependencies]
uuid = { version = "0.8", features = ["v4", "serde"] }
actix = "0.13"
actix-web = "4"
diesel = { version = "1.4", features = ["postgres", "r2d2", "uuidv07"] }
diesel_migrations = "1.4"
dotenvy = "0.15"
env_logger = "0.10"
serde = { version = "1", features = ["derive"] }
