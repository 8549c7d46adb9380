[package]
name = "bme680_exporter"
version = "0.1.0"
edition = "2021"
publish = false

[dependencies]
bme680 = "0.6"
embedded-hal = "0.2"
env_logger = "*"
linux-embedded-hal = "0.3"
log = "*"
zbx_sender = "*"
