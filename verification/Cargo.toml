[package]
name = "simulatoor"
version = "0.1.0"
edition = "2021"
publish = false

[dependencies]
dashmap = "=6.2.1"
revm-primitives = { version = "=15.2.0", default-features = false, features = ["std", "serde"] }
uuid = { version = "=1.29.0", features = ["v4", "serde"] }
tokio = { version = "=1.54.1", features = ["sync", "rt", "rt-multi-thread", "macros"] }
serde = { version = "=1.0.229", features = ["derive"] }
warp = "=0.3.7"
log = "=0.4.34"
pretty_env_logger = "0.5"
