[package]
name = "async_log"
version = "0.1.0"
edition = "2021"
publish = false

[dependencies]
rand = "*"
serde-value = "*"
log = "*"
log4rs = "*"
