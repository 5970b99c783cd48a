[package]
name = "render_session"
version = "0.1.0"
edition = "2021"
publish = false

[dependencies]
log = "0.4"
env_logger = { version = "0.11", default-features = false }
tokio = { version = "1", default-features = false, features = ["rt-multi-thread"] }
