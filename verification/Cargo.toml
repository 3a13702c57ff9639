[package]
name = "maccms_jobs"
version = "0.1.0"
edition = "2021"
publish = false

[dependencies]
actix-web = { version = "=4.18.1", default-features = false }
base64 = "=0.21.7"
bcrypt = "=0.15.1"
chrono = { version = "=0.4.45", default-features = false, features = ["clock"] }
futures = "=0.3.34"
hmac = "=0.12.1"
jsonwebtoken = "=8.3.0"
lazy_static = "=1.5.1"
mongodb = "=2.8.2"
rand = "=0.8.8"
reqwest = { version = "=0.11.27", default-features = false, features = ["json"] }
serde = { version = "=1.0.229", features = ["derive"] }
serde_json = "=1.0.154"
sha2 = "=0.10.9"
tera = { version = "=1.20.1", default-features = false }
tokio = { version = "=1.54.1", features = ["time", "rt"] }
urlencoding = "=2.1.3"
uuid = { version = "=1.29.0", features = ["v4"] }
