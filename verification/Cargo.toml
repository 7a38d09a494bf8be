[package]
name = "drone_fleet"
version = "0.1.0"
edition = "2021"
publish = false

[dependencies]
tokio = { version = "=1.54.1", features = ["sync", "net", "rt-multi-thread", "macros", "time", "io-util"] }
tokio-util = "=0.7.20"
mavio = { version = "=0.2.6", features = ["std", "async"] }
mavspec = { version = "=0.3.4", default-features = false, features = ["rust", "std"] }
