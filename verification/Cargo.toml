[package]
name = "hostcmd"
version = "0.1.0"
edition = "2021"
publish = false

[dependencies]
anyhow = "1"
axum = { version = "0.8", features = ["ws"] }
bytes = "1"
clap = { version = "4", features = ["derive", "env"] }
futures-util = "0.3"
nix = { version = "*", features = ["hostname", "process", "signal", "user"] }
tokio = { version = "1", features = ["full"] }
tokio-tungstenite = "*"
