[package]
name = "orchestra_core"
version = "0.1.0"
edition = "2021"
publish = false

[dependencies]
serde_json = "1"
log = "0.4"
flexi_logger = "*"
actix-web = "4"
chrono = "0.4"
