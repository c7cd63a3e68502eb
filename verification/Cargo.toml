[package]
name = "tiersortierer"
version = "0.1.0"
edition = "2021"
publish = false

[dependencies]
actix-web = { version = "4", default-features = false, features = ["macros"] }
argon2 = "0.5"
futures = "0.3"
log = "0.4"
serde = { version = "1", features = ["derive"] }
simple_logger = "4"
sqlx = { version = "0.8", default-features = false, features = ["postgres", "runtime-tokio", "migrate"] }
toml = "0.8"
