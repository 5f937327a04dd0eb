[package]
name = "piko_miner"
version = "0.1.0"
edition = "2021"
publish = false

[dependencies]
anyhow = "1"
bytemuck = "=1.25.2"
candid = "=0.10.39"
dirs = "5"
ic-agent = { version = "0.44", default-features = false }
num-bigint = "=0.4.8"
num_cpus = "1"
pollster = "0.3"
rand = "=0.8.8"
serde = { version = "1", features = ["derive"] }
serde_bytes = "0.11"
sha2 = "=0.10.9"
tokio = { version = "1", features = ["time", "sync", "rt"] }
wgpu = { version = "=22.1.0", default-features = false, features = ["wgsl"] }
