[package]
name = "apiary_auth"
version = "0.1.0"
edition = "2021"
publish = false

[dependencies]
actix-cors = "*"
actix-web = "4"
argon2 = "0.5"
chrono = { version = "0.4", features = ["serde"] }
diesel = { version = "2", features = ["postgres", "r2d2", "chrono"] }
dotenv = "0.15"
env_logger = "*"
futures = "0.3"
jsonwebtoken = "9"
log = "0.4"
r2d2 = "0.8"
rand_core = { version = "0.6", features = ["getrandom"] }
serde = { version = "1", features = ["derive"] }
serde_json = "1"
