[package]
name = "cncd"
version = "0.1.0"
edition = "2021"
publish = false

[dependencies]
actix = "0.13"
actix-web = "4"
actix-web-actors = "4"
async-stream = "0.3"
env_logger = "*"
libmdns = "*"
log = "0.4"
tokio = { version = "1", features = ["full"] }
tokio-serial = "5"
