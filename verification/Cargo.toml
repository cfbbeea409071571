[package]
name = "graph"
version = "0.1.0"
edition = "2021"
publish = false

[dependencies]
async-trait = "0.1"
futures = "0.3"
lazy_static = "1.4"
num_cpus = "1"
rand = "0.8"
serde_yaml = "0.8"
tokio = { version = "1", features = ["rt", "sync"] }
