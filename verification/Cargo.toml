[package]
name = "blr_core"
version = "0.1.0"
edition = "2021"
publish = false

[dependencies]
faer = "0.22"
serde = { version = "1", features = ["derive"] }
thiserror = "2"
