[package]
name = "script_flow"
version = "0.1.0"
edition = "2021"
publish = false

[dependencies]
petgraph = "0.6"
typid = "1"
serde = { version = "1", features = ["derive"] }
serde_yaml = "0.9"
