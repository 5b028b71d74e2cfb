[package]
name = "project_z"
version = "0.1.0"
edition = "2021"
publish = false

[dependencies]
bon = "3"
image = { version = "0.25", default-features = false, features = ["png"] }
serde = { version = "1", features = ["derive"] }
strum = { version = "0.26", features = ["derive"] }
time = "0.3"
tracing = "0.1"
winit = { version = "0.30", default-features = false, features = ["x11", "rwh_06"] }
