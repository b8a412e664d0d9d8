[package]
name = "gpu_governor"
version = "0.1.0"
edition = "2021"
publish = false

[dependencies]
glob = "*"
libdrm_amdgpu_sys = "*"
serde = { version = "*", features = ["derive"] }
toml = "*"
