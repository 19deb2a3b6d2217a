[package]
name = "loctrack"
version = "0.1.0"
edition = "2021"
publish = false

[dependencies]
wincode = "*"
chrono = { version = "0.4", features = ["serde"] }
axum = "0.8"
sqlx = { version = "0.8", default-features = false, features = ["runtime-tokio", "sqlite", "chrono"] }
tokio = { version = "1", features = ["macros", "rt-multi-thread", "net"] }
tower-http = { version = "0.6", features = ["fs", "trace"] }
tracing-subscriber = { version = "0.3", features = ["env-filter"] }
dotenv = "0.15"
serde = { version = "1", features = ["derive"] }
serde_json = "1"
