[package]
name = "mihomo_tui"
version = "0.1.0"
edition = "2021"
publish = false

[dependencies]
url = "=2.5.8"
anyhow = "=1.0.104"
clap = { version = "=4.6.7", features = ["derive"] }
serde = { version = "=1.0.229", features = ["derive"] }
serde_yaml_ng = "=0.10.0"
directories = "=6.0.0"
unicode-segmentation = "=1.13.3"
tui-input = { version = "*", default-features = false }
