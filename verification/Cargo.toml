[package]
name = "io_service"
version = "0.1.0"
edition = "2021"
publish = false

[dependencies]
rand = "*"
tokio = { version = "*", features = ["full"] }
rumqttc = "*"
serde_json = "*"
log = "*"
env_logger = "*"
clap = { version = "*", features = ["derive"] }
sysfs_gpio = "*"
async-trait = "*"
