[package]
name = "battery_monitor"
version = "0.1.0"
edition = "2021"
publish = false

[dependencies]
battery = "*"
ctrlc = "*"
env_logger = "*"
log = "*"
notify-rust = "*"
