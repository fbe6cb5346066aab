[package]
name = "happy_cappy"
version = "0.1.0"
edition = "2021"
publish = false

[dependencies]
clap = { version = "4", features = ["derive"] }
env_logger = "0.11"
fastrand = "2"
image = { version = "0.25", default-features = false, features = ["png"] }
log = "0.4"
objc2 = "0.6"
objc2-app-kit = "0.3"
objc2-core-foundation = "0.3"
objc2-core-graphics = "0.3"
objc2-foundation = "0.3"
serde = { version = "1", features = ["derive"] }
serde_json = "1"
winit = "0.30"

[dev-dependencies]
tempfile = "3"
