[package]
name = "pucoti"
version = "0.1.0"
edition = "2021"
publish = false

[dependencies]
log = "*"
rodio = "0.19"
tokio = { version = "*", features = ["rt-multi-thread", "time"] }
zbus = "*"
