[package]
name = "automation"
version = "0.1.0"
edition = "2021"
publish = false

[dependencies]
bcrypt = "*"
uuid = { version = "1", features = ["v4"] }
json = "0.12"
serde = { version = "1", features = ["derive"] }
strum = { version = "*", features = ["derive"] }
actix-web = { version = "4", default-features = false, features = ["macros"] }
mysql = { version = "*", default-features = false, features = ["minimal"] }
dotenv = "0.15"
env_logger = "*"
