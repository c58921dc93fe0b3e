[package]
name = "narrator"
version = "0.1.0"
edition = "2021"
publish = false

[dependencies]
async-openai = "0.28"
chrono = "0.4"
cpal = "0.15"
futures = "0.3"
hound = "3.5"
include_dir = "0.7"
log = "0.4"
rodio = "0.20"
serde = { version = "1", features = ["derive"] }
serde_json = "1"
strum_macros = "0.26"
tokio = { version = "1", features = ["rt-multi-thread", "sync", "time"] }
uuid = { version = "1", features = ["v4"] }
