[package]
name = "sds011"
version = "0.1.0"
edition = "2021"
publish = false

[dependencies]
embedded-hal = "1.0"
embedded-hal-async = "1.0"
embedded-io = "0.6"
embedded-io-async = "0.6"
embedded-io-adapters = { version = "0.6", features = ["tokio-1"] }
inquire = "0.7"
thiserror = "2"
tokio = { version = "1", features = ["rt", "macros", "time"] }
tokio-serial = "5.4"
