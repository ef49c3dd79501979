[package]
name = "human_panic"
version = "0.1.0"
edition = "2021"
publish = false

[dependencies]
backtrace = "*"
os_info = "*"
uuid = { version = "*", features = ["v4"] }

[dev-dependencies]
toml = "*"
