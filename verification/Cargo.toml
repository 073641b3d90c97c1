[package]
name = "texti"
version = "0.1.0"
edition = "2021"
publish = false

[dependencies]
clap = { version = "=4.6.7", features = ["derive"] }
clipboard = "0.5"
color-eyre = "=0.6.5"
crossterm = { version = "=0.28.1", features = ["event-stream"] }
directories = "=6.0.0"
futures = "=0.3.34"
ratatui = "=0.29.0"
regex = "=1.13.1"
serde = { version = "=1.0.229", features = ["derive"] }
serde_yaml = "0.9"
tachyonfx = "0.21"
throbber-widgets-tui = "0.8"
tokio = { version = "=1.54.1", features = ["rt-multi-thread", "macros", "sync", "fs", "io-util", "time"] }
tokio-util = "=0.7.20"
tui-big-text = "0.7"
tui-textarea = { version = "=0.7.0", features = ["search"] }
