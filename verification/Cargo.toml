[package]
name = "tarpc"
version = "0.1.0"
edition = "2021"
publish = false

[dependencies]
anyhow = "1"
fnv = "1"
serde = { version = "1", features = ["derive"] }
static_assertions = "1"
thiserror = "1"
time = "0.3"
tokio = { version = "1", features = ["sync", "time"] }
tracing = "0.1"
tracing-subscriber = { version = "0.3", features = ["env-filter"] }

[dev-dependencies]
bincode = "1"
