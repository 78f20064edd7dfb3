[package]
name = "rusty"
version = "0.1.0"
edition = "2021"
publish = false

[dependencies]
httpdate = "1"
num_cpus = "1"
async-std = { version = "1", features = ["attributes"] }
futures = "0.3"
