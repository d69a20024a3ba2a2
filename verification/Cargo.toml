[package]
name = "xtra"
version = "0.1.0"
edition = "2021"
publish = false

[dependencies]
futures-sink = "=0.3.34"
futures-util = { version = "=0.3.34", features = ["sink"] }
