[package]
name = "fuel_transfer"
version = "0.1.0"
edition = "2021"
publish = false

[dependencies]
fuels-core = "=0.66.10"
fuels-accounts = "=0.66.10"
fuel-crypto = "=0.58.2"
axum = { version = "=0.7.9", default-features = false, features = ["http1", "json", "tokio"] }
tokio = { version = "=1.53.2", features = ["rt-multi-thread", "net", "macros"] }
serde = { version = "=1.0.229", features = ["derive"] }
thiserror = "=1.0.69"
dotenv = "=0.15.0"
