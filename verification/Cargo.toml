[package]
name = "tower_fault"
version = "0.1.0"
edition = "2021"
publish = false

[dependencies]
rand = "0.8"
tokio = { version = "1", features = ["time", "rt", "macros"] }
tower = { version = "0.4", features = ["util"] }
