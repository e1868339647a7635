[package]
name = "unletterbox"
version = "0.1.0"
edition = "2021"
publish = false

[dependencies]
anyhow = "*"
clap = { version = "*", features = ["derive"] }
env_logger = "*"
imx = "*"
log = "*"
tokio = { version = "*", features = ["full"] }

[dev-dependencies]
image = "*"
tempfile = "*"
