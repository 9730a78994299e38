[package]
name = "grid_pattern"
version = "0.1.0"
edition = "2021"
publish = false

[dependencies]
egui = { version = "=0.36.2", default-features = false, features = ["serde"] }
egui-probe = { version = "=0.13.0", features = ["derive"] }
serde = { version = "=1.0.229", features = ["derive"] }
