[package]
name = "site_supervisor"
version = "0.1.0"
edition = "2021"
publish = false

[dependencies]
parking_lot = "=0.12.5"
tokio = { version = "=1.54.1", features = ["rt-multi-thread", "macros"] }
futures = "=0.3.34"
env_logger = "=0.11.11"
jemallocator = "*"
jemalloc-ctl = "*"
