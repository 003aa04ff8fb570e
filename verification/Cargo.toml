[package]
name = "repo_service"
version = "0.1.0"
edition = "2021"
publish = false

[dependencies]
actix-web = { version = "4", default-features = false, features = ["macros"] }
chrono = "0.4"
dotenv = "0.15"
env_logger = "0.11"
hex = "0.4"
log = "0.4"
mongodb = "3"
rand = "0.8"
reqwest = { version = "0.12", default-features = false, features = ["json"] }
serde = { version = "1", features = ["derive"] }
strum_macros = "0.26"
thiserror = "1"
uuid = { version = "1", features = ["v4"] }
