[package]
name = "lance_exec"
version = "0.1.0"
edition = "2021"
publish = false

[dependencies]
arrow-array = "55"
arrow-schema = "55"
datafusion = { version = "47", default-features = false }
datafusion-common = { version = "47", default-features = false }
datafusion-physical-expr = { version = "47", default-features = false }
futures = "0.3"
lazy_static = "1"
log = "0.4"
tracing = "0.1"
