[package]
name = "qhyccd_alpaca_core"
version = "0.1.0"
edition = "2021"
publish = false

[dependencies]
tracing = "=0.1.44"
tracing-subscriber = "=0.3.23"
ascom-alpaca = { version = "=1.0.0-beta.10", default-features = false, features = ["server", "camera", "filter_wheel"] }
async-trait = "=0.1.92"
tokio = { version = "=1.54.1", features = ["rt-multi-thread", "macros", "sync", "time"] }
clap = { version = "=4.6.7", features = ["derive"] }
eyre = "=0.6.14"
ndarray = "=0.17.2"
watch = "=0.2.3"
