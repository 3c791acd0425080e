[package]
name = "arbtt_wayland"
version = "0.1.0"
edition = "2021"
publish = false

[dependencies]
anyhow = "1"
chrono = "0.4"
clap = { version = "4", features = ["derive"] }
ctrlc = "3"
niri-ipc = "*"
serde = { version = "1", features = ["derive"] }
serde_json = "1"
swayipc = "*"
