[package]
name = "gltf_tool"
version = "0.1.0"
edition = "2021"
publish = false

[dependencies]
anyhow = "*"
clap = { version = "*", features = ["derive"] }
gltf = { version = "*", default-features = false, features = ["names"] }
serde = { version = "*", features = ["derive"] }
serde_yaml = "*"
thiserror = "*"
