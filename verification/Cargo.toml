[package]
name = "firesync"
version = "0.1.0"
edition = "2021"
publish = false

[dependencies]
full_moon = "=3.0.0"
darklua = "=0.19.0"
tokio = { version = "=1.53.2", features = ["rt-multi-thread", "sync", "time", "net", "io-util", "macros"] }
notify = "=8.2.0"
notify-debouncer-full = "=0.7.0"
localtunnel-client = "=0.1.8"
socket2 = { version = "=0.5.10", features = ["all"] }
uuid = { version = "=1.27.0", features = ["v4"] }
serde = { version = "=1.0.229", features = ["derive"] }
serde_json = "=1.0.151"
