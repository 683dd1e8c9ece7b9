[package]
name = "store_bootstrap"
version = "0.1.0"
edition = "2021"
publish = false

[dependencies]
bson = { version = "=2.15.0", features = ["chrono-0_4"] }
chrono = { version = "=0.4.45", features = ["serde"] }
mongodb = "=2.8.2"
serde = { version = "=1.0.229", features = ["derive"] }
serde_json = "=1.0.154"
sqlx = { version = "=0.7.4", default-features = false, features = ["runtime-tokio", "postgres", "migrate", "macros", "uuid", "chrono", "json"] }
tokio = { version = "=1.54.1", features = ["macros", "rt-multi-thread", "signal"] }
uuid = { version = "=1.29.0", features = ["v4", "serde"] }
