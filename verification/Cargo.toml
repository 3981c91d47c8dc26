[package]
name = "audioknife"
version = "0.1.0"
edition = "2021"
publish = false

[dependencies]
hound = "3.5"
rayon = "1"
serde = { version = "1", features = ["derive"] }
serde_json = "1"
thiserror = "1"
tokio = { version = "1", features = ["rt"] }
log = "0.4"
env_logger = "0.11"
