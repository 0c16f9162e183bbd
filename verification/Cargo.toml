[package]
name = "ovey"
version = "0.1.0"
edition = "2021"
publish = false

[dependencies]
uuid = { version = "0.8", features = ["v4", "serde"] }
regex = "1"
byteorder = "1"
rand = "0.8"
serde = { version = "1", features = ["derive"] }
serde_json = "1"
actix-web = "4"
neli = "0.5"
clap = "2"
reqwest = { version = "0.11", default-features = false, features = ["blocking", "json"] }
log = "0.4"
env_logger = "0.9"
lazy_static = "1"
