[package]
name = "simproto"
version = "0.1.0"
edition = "2021"
publish = false

[dependencies]
bytes = "0.4"
crossbeam = "0.8"
futures = "0.3"
log = "0.4"
parking_lot = "0.12"
tokio-io = "0.1"
