[package]
name = "flow"
version = "0.1.0"
edition = "2021"
publish = false

[dependencies]
url = "2"
simpath = "*"
num_cpus = "1"
serde = { version = "1", features = ["derive"] }
serde_json = "1"
clap = "2"
