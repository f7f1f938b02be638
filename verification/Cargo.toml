[package]
name = "lazymc"
version = "0.1.0"
edition = "2021"
publish = false

[dependencies]
shlex = "*"
tokio = { version = "*", features = ["process", "rt", "rt-multi-thread", "time", "net", "io-util", "macros"] }
futures = "*"
minecraft-protocol = "*"
