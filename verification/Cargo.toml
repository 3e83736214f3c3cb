[package]
name = "now_playing"
version = "0.1.0"
edition = "2021"
publish = false

[dependencies]
futures-util = "*"
tokio = { version = "*", features = ["macros", "rt-multi-thread"] }
zbus = "*"
