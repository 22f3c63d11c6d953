[package]
name = "secure_posts"
version = "0.1.0"
edition = "2021"
publish = false

[dependencies]
jsonwebtoken = "9"
chrono = "0.4"
uuid = { version = "1", features = ["v4", "serde"] }
serde = { version = "1", features = ["derive"] }
serde_json = "1"
sha256 = "1"
actix-web = "4"
actix-multipart = "0.7"
sea-orm = { version = "1", default-features = false, features = ["macros", "with-chrono", "with-uuid"] }
sea-orm-migration = { version = "1", default-features = false }
async-trait = "0.1"
dotenv = "0.15"
env_logger = "0.11"
lazy_static = "1"
