[package]
name = "realm_control"
version = "0.1.0"
edition = "2021"
publish = false

[dependencies]
chrono = { version = "0.4", default-features = false, features = ["clock", "std"] }
fern = "0.6"
futures = "0.3"
log = "0.4"
tokio = { version = "1", features = ["rt", "rt-multi-thread", "net", "time", "signal", "macros"] }
