[package]
name = "block_tracer"
version = "0.1.0"
edition = "2021"
publish = false

[dependencies]
alloy = { version = "=1.8.3", default-features = false, features = ["std", "consensus", "eips", "network", "rpc-types"] }
anyhow = "=1.0.104"
axum = { version = "=0.8.9", default-features = false, features = ["http1", "json", "tokio"] }
hex = "=0.4.3"
revm = { version = "=30.2.0", default-features = false, features = ["std"] }
serde = { version = "=1.0.229", features = ["derive"] }
tokio = { version = "=1.54.1", features = ["macros", "net", "rt-multi-thread"] }
