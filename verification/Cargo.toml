[package]
name = "roya_routes"
version = "0.1.0"
edition = "2021"
publish = false

[dependencies]
askama = "*"
axum = "*"
chrono = { version = "*", default-features = false, features = ["std", "clock", "serde"] }
rust_decimal = { version = "*", features = ["serde"] }
serde = { version = "*", features = ["derive"] }
serde_json = "*"
sqlx = { version = "*", default-features = false, features = ["sqlite", "runtime-tokio"] }
tower-http = { version = "*", features = ["fs"] }
tracing = "*"
