[package]
name = "signet"
version = "0.1.0"
edition = "2021"
publish = false

[dependencies]
serde = { version = "1", features = ["derive"] }
serde_json = "1"
libc = "0.2"
log = "0.4"
reqwest = { version = "0.12", default-features = false, features = ["json"] }
