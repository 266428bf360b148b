[package]
name = "vector_tile_services"
version = "0.1.0"
edition = "2021"
publish = false

[dependencies]
actix-web = { version = "4", default-features = false, features = ["macros"] }
aws-config = "1"
aws-sdk-s3 = "1"
dotenv = "0.15"
env_logger = "0.11"
log = "0.4"
once_cell = "1"
serde = { version = "1", features = ["derive"] }
sqlx = { version = "0.8", default-features = false, features = ["postgres", "runtime-tokio"] }
tokio = { version = "1", features = ["sync", "rt-multi-thread", "macros"] }
