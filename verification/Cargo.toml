[package]
name = "ts3"
version = "0.4.1"
edition = "2021"
publish = false

[dependencies]
async-trait = "0.1"
bytes = "1"
thiserror = "1"
tokio = { version = "1", features = ["io-util", "macros", "net", "rt-multi-thread", "signal", "sync", "time"] }
