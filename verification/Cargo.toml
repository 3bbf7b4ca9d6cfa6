[package]
name = "disk_inventory"
version = "0.1.0"
edition = "2021"
publish = false

[dependencies]
rocket = "0.5"
rocket_dyn_templates = { version = "0.2", features = ["tera"] }
serde = { version = "1", features = ["derive"] }
serde_json = "1"
tokio = { version = "1", features = ["process", "rt"] }
