[package]
name = "for-mqtt-client"
version = "0.1.0"
edition = "2021"
publish = false

[dependencies]
bytes = "1"
ringbuf = "0.3"
tokio = { version = "1", features = ["rt-multi-thread", "macros", "net", "io-util", "sync", "time"] }
thiserror = "1"
anyhow = "1"
log = "0.4"
rustls-pemfile = "1"
for_event_bus = "*"
