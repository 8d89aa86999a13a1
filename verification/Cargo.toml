[package]
name = "redis_connector"
version = "0.1.0"
edition = "2021"
publish = false

[dependencies]
anyhow = "=1.0.104"
async-trait = "=0.1.92"
bb8-redis = "=0.10.1"
once_cell = "=1.21.4"
redis = { version = "=0.21.8", features = ["cluster"] }
serde = "=1.0.229"
serde_json = "=1.0.154"
tracing = "=0.1.44"

[dev-dependencies]
tokio = { version = "=1.54.1", features = ["rt", "time"] }
