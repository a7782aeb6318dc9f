[package]
name = "scancode_stream"
version = "0.1.0"
edition = "2021"
publish = false

[dependencies]
conquer-once = { version = "*", default-features = false }
crossbeam-queue = { version = "0.2", default-features = false, features = ["alloc"] }
futures-util = { version = "0.3", default-features = false, features = ["alloc"] }
