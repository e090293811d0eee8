[package]
name = "software_updater"
version = "0.1.0"
edition = "2021"
publish = false

[dependencies]
which = "*"
runas = "*"
os_info = "*"
dirs = "*"
serde = { version = "*", features = ["derive"] }
serde_json = "*"
log = "*"
pretty_env_logger = "*"
eyre = "*"
cfg-if = "*"
