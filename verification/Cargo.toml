[package]
name = "cosmic-launcher"
version = "0.1.0"
edition = "2021"
publish = false

[dependencies]
clap = { version = "=4.6.7", features = ["derive"] }
once_cell = "=1.21.4"
pop-launcher = "=1.2.7"
serde = { version = "=1.0.229", features = ["derive"] }
serde_json = "=1.0.154"
tokio = { version = "=1.54.1", features = ["sync"] }
tracing = "=0.1.44"
unicode-truncate = "=0.2.0"
unicode-width = "=0.1.11"
zbus = "=6.1.0"
