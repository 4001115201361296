[package]
name = "log_uploader"
version = "0.1.0"
edition = "2021"
publish = false

[dependencies]
chrono = "*"
dirs-next = "*"
notify = "*"
open = "*"
serde = { version = "*", features = ["derive"] }
serde_json = "*"
ureq = "2"
ureq_multipart = "*"
