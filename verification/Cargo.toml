[package]
name = "pcd_renderer"
version = "0.1.0"
edition = "2021"
publish = false

[dependencies]
arrow-array = "*"
arrow-schema = "*"
bytes = "*"
parquet = { version = "*", default-features = false, features = ["arrow", "snap"] }
serde = { version = "1", features = ["derive"] }
serde_json = "1"
glam = "*"
thiserror = "*"
