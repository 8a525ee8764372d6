[package]
name = "gpt2_service"
version = "0.1.0"
edition = "2021"
publish = false

[dependencies]
ort = "2.0.0-rc.2"
ndarray = "*"
tokenizers = "*"
rand = "0.8"
hyper = { version = "1", features = ["full"] }
http-body-util = "0.1"
hyper-util = { version = "0.1", features = ["full"] }
tokio = { version = "1", features = ["full"] }
