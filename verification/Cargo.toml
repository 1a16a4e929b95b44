[package]
name = "grinstrument"
version = "0.1.0"
edition = "2021"
publish = false

[dependencies]
coremidi = "=0.8.0"
futures = "=0.3.34"
itertools = "=0.15.0"
redux-rs = "=0.3.3"
tokio = { version = "=1.54.1", features = ["macros", "rt-multi-thread"] }
