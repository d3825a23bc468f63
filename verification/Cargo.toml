[package]
name = "customer_identity"
version = "0.1.0"
edition = "2021"
publish = false

[dependencies]
axum = "0.7"
bcrypt = "0.15"
chrono = "0.4"
diesel = { version = "2", features = ["postgres", "r2d2"] }
dotenv = "0.15"
fern = "0.6"
hex = "0.4"
hmac = "0.12"
jsonwebtoken = "9"
log = "0.4"
mongodb = "2"
r2d2 = "0.8"
rand = "0.8"
redis = "0.23"
regex = "1"
reqwest = { version = "0.11", default-features = false, features = ["rustls-tls"] }
serde = { version = "1", features = ["derive"] }
serde_json = "1"
sha2 = "0.10"
tokio = { version = "1", features = ["full"] }
tower = { version = "0.4", features = ["buffer", "limit", "util"] }
tower-http = { version = "0.5", features = ["cors", "timeout", "compression-gzip"] }
