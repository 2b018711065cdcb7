[package]
name = "cats_api"
version = "0.1.0"
edition = "2021"
publish = false

[dependencies]
actix-web = "*"
diesel = { version = "*", features = ["postgres", "r2d2"] }
dotenv = "*"
env_logger = "*"
log = "*"
serde = { version = "*", features = ["derive"] }
