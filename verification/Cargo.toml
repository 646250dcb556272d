[package]
name = "featureflag"
version = "0.1.0"
edition = "2021"
publish = false

[dependencies]
thread_local = "1.1"
inventory = "0.3"
futures-core = "0.3"
