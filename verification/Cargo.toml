[package]
name = "dd-unqueried-metrics"
version = "0.1.0"
edition = "2021"
publish = false

[dependencies]
chrono = "=0.4.45"
csv = "=1.4.0"
reqwest = "=0.11.27"
serde_json = "=1.0.154"
structopt = "=0.3.26"
tokio = { version = "=1.54.1", features = ["macros", "rt-multi-thread"] }

[dev-dependencies]
regex = "=1.13.1"
