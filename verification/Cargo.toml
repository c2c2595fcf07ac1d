[package]
name = "mas_project_advanced"
version = "0.1.0"
edition = "2021"
publish = false

[dependencies]
rust_decimal = "1"
bcrypt = "0.15"
slug = "0.1"
chrono = "0.4"
anyhow = "1"
async-trait = "0.1"
serde = { version = "1", features = ["derive"] }
serde_json = "1"
jsonwebtoken = "9"
tokio = { version = "1", features = ["macros", "rt-multi-thread", "net"] }
axum = { version = "0.7", features = ["multipart", "macros"] }
askama = "0.12"
tower-cookies = "0.10"
tower-http = { version = "0.5", features = ["fs", "cors"] }
sqlx = { version = "0.7", default-features = false, features = ["runtime-tokio", "postgres", "chrono", "bigdecimal", "migrate"] }
aws-sdk-s3 = "1"
