[package]
name = "plugin_tunnel"
version = "0.1.0"
edition = "2021"
publish = false

[dependencies]
rapace = "=0.4.0"
rapace-transport-shm = "=0.4.0"
tokio = { version = "=1.53.2", features = ["rt", "rt-multi-thread", "net", "process", "io-util", "time", "macros", "sync"] }
tracing = "=0.1.44"
color-eyre = "=0.6.5"
