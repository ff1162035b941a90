[package]
name = "server_booter"
version = "0.1.0"
edition = "2021"
publish = false

[dependencies]
anyhow = "=1.0.104"
clap = { version = "=4.6.7", features = ["derive"] }
craftio-rs = { version = "=0.1.0", default-features = false, features = ["tokio-io"] }
lazy_static = "=1.5.1"
log = "=0.4.34"
mcproto-rs = { version = "=0.2.0", default-features = false, features = ["std", "v1_15_2"] }
tokio = { version = "=1.53.2", features = ["rt-multi-thread", "macros", "net", "io-util", "sync", "time"] }
tokio-cron-scheduler = "=0.15.1"
tracing-subscriber = "=0.3.23"
