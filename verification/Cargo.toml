[package]
name = "sidecar_supervisor"
version = "0.1.0"
edition = "2021"
publish = false

[dependencies]
dirs = "*"
env_logger = "*"
log = "*"
reqwest = { version = "*", default-features = false }
serde = { version = "*", features = ["derive"] }
serde_json = "*"
sysinfo = "*"
tokio = { version = "*", features = ["rt-multi-thread", "macros", "time"] }
