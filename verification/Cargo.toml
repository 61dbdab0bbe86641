[package]
name = "tds-rpc"
version = "0.1.0"
edition = "2021"
publish = false

[dependencies]
bytes = "1"
enumflags2 = "0.7"
futures-util = { version = "0.3", features = ["io"] }
tracing = "0.1"
