[package]
name = "hwhkit"
version = "0.1.0"
edition = "2021"
publish = false

[dependencies]
axum = "=0.8.9"
chrono = "=0.4.45"
jsonwebtoken = { version = "=11.1.0", features = ["rust_crypto"] }
serde = { version = "=1.0.229", features = ["derive"] }
serde_json = "=1.0.151"
tera = "=1.20.1"
tokio = { version = "=1.53.2", features = ["rt-multi-thread", "net", "macros"] }
toml = "=0.8.23"
tower-http = { version = "=0.7.1", features = ["cors", "fs", "trace"] }
tracing = "=0.1.44"
tracing-subscriber = { version = "=0.3.23", features = ["env-filter"] }

[dev-dependencies]
tempfile = "=3.27.0"
tower = { version = "=0.5.3", features = ["util"] }
