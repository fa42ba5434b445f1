[package]
name = "echo_bot"
version = "0.1.0"
edition = "2021"
publish = false

[dependencies]
serde = { version = "1", features = ["derive"] }
serde_json = "1"
serde_yaml = "0.9"
ureq = { version = "2", default-features = false, features = ["json"] }
chrono = "0.4"
colored = "2"
syn = "1"
quote = "1"
proc-macro2 = "1"
