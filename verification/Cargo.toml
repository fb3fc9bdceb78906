[package]
name = "meetings"
version = "0.1.0"
edition = "2021"
publish = false

[dependencies]
anyhow = "1"
axum = "0.6"
axum-macros = "0.3"
dotenvy = "0.15"
futures = "0.3"
serde = { version = "1", features = ["derive"] }
sqlx = { version = "0.7", default-features = false, features = ["macros", "postgres", "runtime-tokio", "time", "uuid"] }
thiserror = "1"
time = { version = "0.3", features = ["formatting", "macros", "parsing", "serde"] }
tokio = { version = "1", features = ["macros", "rt-multi-thread", "signal"] }
tokio-util = "0.7"
tracing = "0.1"
tracing-subscriber = "0.3"
uuid = { version = "1", features = ["serde", "v4"] }
