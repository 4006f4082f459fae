[package]
name = "silent_shot"
version = "0.1.0"
edition = "2021"
publish = false

[dependencies]
image = { version = "0.23", default-features = false, features = ["png", "tga"] }
crossbeam-channel = "*"
num_cpus = "*"
dirs = "*"
ron = "*"
serde = { version = "*", features = ["derive"] }
winapi = { version = "0.3", features = ["winuser", "wingdi", "windef", "dwmapi", "minwindef"] }
