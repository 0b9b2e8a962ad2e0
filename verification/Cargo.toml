[package]
name = "dump_actor"
version = "0.1.0"
edition = "2021"
publish = false

[dependencies]
chrono = { version = "0.4", default-features = false, features = ["clock", "std"] }
tokio = { version = "1", default-features = false, features = ["sync", "rt", "rt-multi-thread", "macros"] }
futures = "0.3"
async-stream = "0.3"
log = "0.4"
