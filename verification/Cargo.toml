[package]
name = "axum_rest_api"
version = "0.1.0"
edition = "2021"
publish = false

[dependencies]
serde_json = "1"
serde = { version = "1", features = ["derive"] }
axum = "0.7"
tokio = { version = "1", features = ["macros", "rt-multi-thread", "net", "signal", "time"] }
sqlx = { version = "0.7", default-features = false, features = ["runtime-tokio", "mysql"] }
dotenvy = "0.15"
