[package]
name = "press"
version = "0.1.0"
edition = "2021"
publish = false

[dependencies]
argon2 = { version = "=0.5.3", features = ["std"] }
chrono = "=0.4.45"
actix-web = "=4.18.1"
actix-cors = "=0.7.2"
actix-multipart = "=0.7.2"
futures-util = "=0.3.34"
serde = { version = "=1.0.229", features = ["derive"] }
serde_json = { version = "=1.0.154", features = ["preserve_order"] }
sqlx = { version = "=0.8.6", features = ["runtime-tokio", "postgres", "chrono", "macros"] }
jsonwebtoken = "=9.3.1"
anyhow = "=1.0.104"
