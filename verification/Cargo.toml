[package]
name = "project_name"
version = "0.1.0"
edition = "2021"
publish = false

[dependencies]
rustrict = "=0.5.14"
serde = { version = "=1.0.229", features = ["derive"] }
