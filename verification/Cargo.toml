[package]
name = "nagx"
version = "0.1.0"
edition = "2021"
publish = false

[dependencies]
vt100 = "*"
russh = "*"
tokio = { version = "1", features = ["rt-multi-thread"] }
slint = { version = "1", default-features = false, features = ["std", "compat-1-2"] }
