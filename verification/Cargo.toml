[package]
name = "progressive_unlock"
version = "0.1.0"
edition = "2021"
publish = false

[dependencies]
uuid = { version = "=1.29.0", features = ["serde"] }
askama = "=0.14.0"
axum = "=0.8.9"
axum-extra = { version = "=0.10.3", features = ["cookie"] }
serde = { version = "=1.0.229", features = ["derive"] }
shuttle-axum = "=0.57.0"
shuttle-runtime = "=0.57.0"
shuttle-shared-db = { version = "=0.57.0", features = ["postgres", "sqlx"] }
sqlx = { version = "=0.8.6", features = ["postgres", "uuid", "runtime-tokio"] }
tokio = { version = "=1.54.1", features = ["macros"] }
tower-http = { version = "=0.6.11", features = ["fs"] }
