[package]
name = "kvredis"
version = "0.1.0"
edition = "2021"
publish = false

[dependencies]
wascc-codec = "=0.5.2"
redis = "=1.7.1"
rmp = "=0.8.9"
rmp-serde = "=0.14.4"
log = "*"
env_logger = "*"
