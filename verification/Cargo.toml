[package]
name = "bitz_pool"
version = "0.1.0"
edition = "2021"
publish = false

[dependencies]
anyhow = "=1.0.104"
axum = { version = "=0.8.9", features = ["ws"] }
axum-extra = { version = "=0.10.3", features = ["typed-header"] }
bytemuck = { version = "=1.23.1", features = ["extern_crate_alloc"] }
chrono = { version = "=0.4.45", features = ["serde"] }
clap = { version = "=4.6.7", features = ["derive"] }
dotenv = "=0.15.0"
drillx = "=2.2.0"
eore-api = "=3.6.2"
futures = "=0.3.34"
serde = { version = "=1.0.229", features = ["derive"] }
serde_json = "=1.0.154"
solana-sdk = "=2.1.21"
spl-associated-token-account = { version = "=6.0.0", features = ["no-entrypoint"] }
spl-token = { version = "=4.0.2", features = ["no-entrypoint"] }
steel = "=4.0.9"
tokio = { version = "=1.54.1", features = ["full"] }
tower-http = { version = "=0.6.11", features = ["cors", "trace"] }
tracing = "=0.1.44"
tracing-appender = "=0.2.5"
tracing-subscriber = "=0.3.23"
uuid = { version = "=1.29.0", features = ["v4"] }
