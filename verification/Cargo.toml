[package]
name = "pros_simulator"
version = "0.1.0"
edition = "2021"
publish = false

[dependencies]
slab = "=0.4.12"
wasmtime = "=36.0.19"
tokio = { version = "=1.54.1", features = ["rt", "macros", "sync", "time"] }
anyhow = "=1.0.104"
futures-util = "=0.3.34"
serde = { version = "=1.0.229", features = ["derive"] }
jsonl = "=4.0.1"
clap = { version = "=4.6.7", features = ["derive"] }
tracing = "=0.1.44"

[dev-dependencies]
pros-sys = "=0.8.1"
