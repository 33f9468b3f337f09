[package]
name = "nyx-czml"
version = "0.1.0"
edition = "2021"
publish = false

[dependencies]
hifitime = "4"
nyx-space = "2"
anise = "*"
serde = { version = "1", features = ["derive"] }
serde_json = "1"
thiserror = "*"
