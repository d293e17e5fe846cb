[package]
name = "dziennik"
version = "0.1.0"
edition = "2021"
publish = false

[dependencies]
actix-web = { version = "0.7", default-features = false }
diesel = { version = "1.4", features = ["postgres", "r2d2"] }
dotenv = "0.15"
env_logger = "0.6"
futures = "0.1"
listenfd = "0.3"
log = "0.4"
pretty_env_logger = "0.3"
sentry = "0.15"
serde = "1"
serde_derive = "1"

[dev-dependencies]
serde_json = "1"
