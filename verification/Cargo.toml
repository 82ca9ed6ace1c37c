[package]
name = "habitat_sup"
version = "0.1.0"
edition = "2021"
publish = false

[dependencies]
bytes = "=0.4.12"
futures = "=0.1.31"
protobuf = "=1.7.5"
tokio = "=0.1.22"
tokio-io = "=0.1.13"
