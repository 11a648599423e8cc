[package]
name = "filesharing"
version = "0.1.0"
edition = "2021"
publish = false

[dependencies]
axum = { version = "=0.8.9", features = ["multipart", "macros"] }
axum-extra = { version = "=0.10.3", features = ["typed-header"] }
bcrypt = "=0.19.3"
chrono = "=0.4.45"
dotenvy = "=0.15.7"
getrandom = "=0.4.3"
http-auth-basic = "=0.3.7"
jsonwebtoken = "=9.3.1"
maud = "=0.27.0"
serde = { version = "=1.0.229", features = ["derive"] }
sqlx = { version = "=0.8.6", default-features = false, features = ["sqlite", "runtime-tokio", "chrono", "migrate"] }
tokio = { version = "=1.54.1", features = ["full"] }
tokio-util = { version = "=0.7.20", features = ["io"] }
tower-http = { version = "=0.7.1", features = ["fs"] }
uuid = { version = "=1.29.1", features = ["v4"] }
