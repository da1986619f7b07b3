[package]
name = "auth_core"
version = "0.1.0"
edition = "2021"
publish = false

[dependencies]
argon2 = "=0.6.0"
jsonwebtoken = { version = "=11.1.0", features = ["rust_crypto"] }
uuid = { version = "=1.27.0", features = ["v4"] }
time = "=0.3.55"
serde = { version = "*", features = ["derive"] }
serde_json = "=1.0.151"
tokio = { version = "*", features = ["full"] }
axum = "*"
axum-extra = { version = "*", features = ["typed-header"] }
deadpool-redis = "*"
chrono = "*"
tower-http = { version = "*", features = ["cors"] }
dotenv = "*"
tracing = "*"
tracing-subscriber = { version = "*", features = ["env-filter"] }
anyhow = "*"
reqwest = { version = "*", default-features = false, features = ["json"] }
sqlx = { version = "*", default-features = false, features = ["runtime-tokio", "postgres", "uuid", "time"] }
resend-rs = "*"
google-jwt-verify = "*"
