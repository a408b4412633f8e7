[package]
name = "assert_unmoved"
version = "0.1.0"
edition = "2021"
publish = false

[dependencies]
futures-core = "0.3"
pin-project = "1"

[dev-dependencies]
futures-util = "0.3"
