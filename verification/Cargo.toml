[package]
name = "tasktrace"
version = "0.1.0"
edition = "2021"

[dependencies]
futures-channel = "*"
futures-core = "*"
pin-project-lite = "*"
scoped-trace = "*"
