[package]
name = "mesh_actor"
version = "0.1.0"
edition = "2021"
publish = false

[dependencies]
tokio = { version = "1", features = ["full"] }
tokio-util = "0.7"
anyhow = "1"
thiserror = "1"
async-trait = "0.1"
log = "0.4"

[dev-dependencies]
derivative = "2"
