[package]
name = "piper"
version = "0.1.0"
edition = "2021"
publish = false

[dependencies]
quinn = "0.10"
rustls = { version = "0.21", features = ["dangerous_configuration"] }
rcgen = "0.11"
config = "0.13"
tokio = { version = "1", features = ["rt-multi-thread", "macros", "io-std", "io-util"] }
simple-eyre = "0.3"
argwerk = "0.20"
