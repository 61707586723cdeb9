[package]
name = "tokio_retry"
version = "0.3.0"
edition = "2021"
publish = false

[dependencies]
futures = "0.3"
rand = "0.8"
tokio = { version = "1", features = ["rt", "rt-multi-thread", "time"] }

[dev-dependencies]
quickcheck = "1"
