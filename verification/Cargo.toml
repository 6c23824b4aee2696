[package]
name = "hoj"
version = "0.1.0"
edition = "2021"
publish = false

[dependencies]
anyhow = "1"
async-fs = "1"
async-process = "1"
async-walkdir = "0.2"
axum = { version = "0.4", features = ["multipart"] }
axum-extra = "0.1"
chrono = "0.4"
deadpool = "0.8"
deadpool-postgres = "0.9"
dotenv = "0.15"
futures = "0.3"
hyper = { version = "0.14", features = ["full"] }
jsonwebtoken = "7"
lazy_static = "1"
mobc-redis = "0.7"
rand = "0.8"
serde = { version = "1", features = ["derive"] }
serde_json = "1"
tempfile = "3"
timer = "0.2"
tokio = { version = "1", features = ["full"] }
tokio-postgres = "0.7"
validator = { version = "0.14", features = ["derive"] }
