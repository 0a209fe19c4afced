[package]
name = "fq"
version = "0.1.0"
edition = "2021"
publish = false

[dependencies]
tokio = { version = "=1.54.1", features = ["sync", "rt-multi-thread", "macros", "net", "time"] }
serde_json = { version = "=1.0.154", features = ["preserve_order"] }
jsonwebtoken = "=9.3.1"
rand = "=0.8.8"
serde = { version = "=1.0.229", features = ["derive"] }
axum = { version = "=0.6.20", features = ["ws", "headers"] }
askama_axum = "=0.3.0"
sqlx = { version = "=0.7.4", default-features = false, features = ["sqlite", "runtime-tokio", "macros", "json"] }
tower = "=0.4.13"
tower-http = { version = "=0.4.4", features = ["fs", "trace"] }
tower-cookies = "=0.9.0"
tower-sessions = { version = "=0.2.4", features = ["sqlite-store"] }
hyper = "=0.14.32"
headers = "=0.3.9"
once_cell = "=1.21.4"
time = "=0.3.55"
tracing = "=0.1.44"
tracing-subscriber = { version = "=0.3.23", features = ["env-filter"] }
futures = "=0.3.34"
futures-util = "=0.3.34"
