[package]
name = "shelly_blu"
version = "0.1.0"
edition = "2021"
publish = false

[dependencies]
btleplug = "*"
tokio = { version = "*", features = ["macros", "rt-multi-thread", "time"] }
uuid = "*"
