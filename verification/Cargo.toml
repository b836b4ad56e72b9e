[package]
name = "authentication_service"
version = "0.1.0"
edition = "2021"
publish = false

[dependencies]
anyhow = "=1.0.104"
argon2 = "=0.5.3"
axum = "=0.8.9"
axum-extra = { version = "=0.12.6", features = ["cookie"] }
base64 = "=0.22.1"
chrono = "=0.4.45"
dotenv = "=0.15.0"
jsonwebtoken = { version = "=11.1.0", features = ["rust_crypto"] }
rand_core = { version = "=0.6.4", features = ["std"] }
redis = { version = "=1.7.1", features = ["tokio-comp"] }
serde = "=1.0.229"
serde_json = "=1.0.151"
sqlx = { version = "=0.9.0", default-features = false, features = ["runtime-tokio", "postgres", "uuid", "chrono"] }
time = "=0.3.55"
tokio = { version = "=1.53.2", features = ["full"] }
uuid = { version = "=1.27.0", features = ["v4"] }

[dev-dependencies]
rand = "=0.8.8"
rsa = "=0.9.10"
