[package]
name = "rig_supervisor"
version = "0.1.0"
edition = "2021"
publish = false

[dependencies]
byte-unit = "4"
chrono = "0.4"
clap = { version = "4", features = ["derive"] }
color-eyre = "0.6"
crossterm = "0.25"
directories = "5"
eyre = "0.6"
futures = "0.3"
glib = "0.18"
gstreamer = "0.21"
inquire = "0.6"
itertools = "0.11"
nix = { version = "0.26", features = ["signal"] }
once_cell = "1"
parking_lot = "0.12"
reqwest = { version = "0.11", default-features = false }
tokio = { version = "1", features = ["full"] }
tokio-stream = "0.1"
tokio-util = "0.7"
tracing = "0.1"
tracing-appender = "0.2"
tracing-subscriber = { version = "0.3", features = ["env-filter"] }
tui = "0.19"
