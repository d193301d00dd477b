[package]
name = "order_bridge"
version = "0.1.0"
edition = "2021"
publish = false

[dependencies]
serde = { version = "1", features = ["derive"] }
serde_json = "1"
serialport = { version = "4", default-features = false }
anyhow = "1"
log = "0.4"
env_logger = "*"
rusqlite = "*"
actix-web = { version = "4", default-features = false, features = ["macros"] }
actix-cors = "*"
actix-files = "0.6"
chrono = { version = "0.4", default-features = false, features = ["clock"] }
uuid = { version = "1", features = ["v4"] }
