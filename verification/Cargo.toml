[package]
name = "file_system"
version = "0.1.0"
edition = "2021"
publish = false

[dependencies]
crossbeam-utils = "=0.8.23"
hex = "=0.4.3"
parking_lot = "=0.12.5"
protobuf = "=2.28.0"
raft = "=0.7.0"
raft-engine = "=0.4.2"
tokio = { version = "=1.54.1", features = ["time"] }
