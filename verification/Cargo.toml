[package]
name = "ffmpeg_gateway"
version = "0.1.0"
edition = "2021"
publish = false

[dependencies]
anyhow = "=1.0.104"
opendal = { version = "=0.59.4", features = ["services-fs", "services-memory"] }
serde = { version = "=1.0.229", features = ["derive"] }
serde_json = "=1.0.151"
tempfile = "=3.27.0"
tokio = { version = "=1.53.2", features = ["macros", "process", "io-util", "rt-multi-thread", "fs"] }
url = { version = "=2.5.8", features = ["serde"] }
