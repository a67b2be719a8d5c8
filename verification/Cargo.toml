[package]
name = "matmul_fusion"
version = "0.1.0"
edition = "2021"
publish = false

[dependencies]
cubecl-linalg = "=0.5.0"
serde = { version = "1.0.229", features = ["derive"] }
hashbrown = "=0.15.5"
