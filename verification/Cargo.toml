[package]
name = "sphero_session"
version = "0.1.0"
edition = "2021"
publish = false

[dependencies]
uuid = "1"
btleplug = "*"
futures-util = "0.3"
tokio = { version = "1", features = ["macros", "rt-multi-thread", "time"] }
