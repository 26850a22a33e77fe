[package]
name = "tangle-mcp-blueprint"
version = "0.1.0"
edition = "2021"
publish = false

[dependencies]
blueprint-std = { version = "=0.1.0-alpha.4" }
docktopus = { version = "=0.3.0" }
serde = { version = "=1.0.229", features = ["derive"] }
tokio = { version = "=1.54.1", features = ["time", "rt-multi-thread", "macros"] }
tower = { version = "=0.5.3", features = ["filter"] }
tracing = { version = "=0.1.44" }
tracing-subscriber = { version = "=0.3.23", features = ["env-filter"] }
