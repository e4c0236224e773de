[package]
name = "portfolio_tax"
version = "0.1.0"
edition = "2021"
publish = false

[dependencies]
chrono = { version = "=0.4.45", features = ["serde"] }
chrono-tz = "=0.10.4"
rust_decimal = "=1.43.0"
serde = { version = "=1.0.229", features = ["derive"] }
thiserror = "=2.0.21"
axum = "=0.8.9"
sqlx = { version = "=0.8.6", default-features = false, features = ["sqlite", "runtime-tokio", "macros", "chrono"] }
utoipa = "=5.5.0"
