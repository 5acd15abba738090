[package]
name = "zero_shot_rust"
version = "0.1.0"
edition = "2021"
publish = false

[dependencies]
anyhow = "=1.0.104"
futures = "=0.3.34"
image = { version = "=0.25.10", default-features = false, features = ["jpeg", "png"] }
log = "=0.4.34"
rfd = { version = "0.15", default-features = false, features = ["tokio", "xdg-portal"] }
tokio = { version = "=1.54.1", features = ["rt-multi-thread", "time"] }
tracing-subscriber = { version = "=0.3.23", features = ["env-filter"] }
usls = { version = "=0.1.11", default-features = false, features = ["grounding-dino", "ort-load-dynamic"] }
