[package]
name = "team_players"
version = "0.1.0"
edition = "2021"
publish = false

[dependencies]
actix-web = "4"
aws-config = "1"
aws-sdk-dynamodb = "1"
env_logger = "0.11"
log = "0.4"
serde = { version = "1", features = ["derive"] }
ulid = "1"
