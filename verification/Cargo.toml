[package]
name = "ivy_dated"
version = "0.1.0"
edition = "2021"
publish = false

[dependencies]
chrono = "0.4"
chrono-humanize = "*"
colored = "*"
env_logger = "*"
log = "0.4"
reqwest = { version = "*", default-features = false, features = ["blocking", "json"] }
serde = { version = "1", features = ["derive"] }
serde-xml-rs = "*"
structopt = "*"
