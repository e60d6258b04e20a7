[package]
name = "project_dirs"
version = "0.1.0"
edition = "2021"
publish = false

[dependencies]
home = "*"
serde = { version = "*", features = ["derive"] }
serde_json = "*"
clap = { version = "*", features = ["derive"] }
serde_path_to_error = "*"
