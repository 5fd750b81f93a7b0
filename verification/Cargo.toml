[package]
name = "rkblog"
version = "0.1.0"
edition = "2021"
publish = false

[dependencies]
jsonwebtoken = "=8.3.0"
sha256 = "=1.6.0"
mongodb = "=2.8.2"
serde_json = { version = "=1.0.154", features = ["preserve_order"] }
serde = { version = "=1.0.229", features = ["derive"] }
rocket = { version = "=0.5.2", features = ["json", "secrets"] }
rocket_cors = "=0.6.0"
dotenv = "=0.15.0"
