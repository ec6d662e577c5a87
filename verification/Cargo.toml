[package]
name = "blazingjj"
version = "0.1.0"
edition = "2021"
publish = false

[dependencies]
ansi-to-tui = "*"
anyhow = "*"
clap = { version = "*", features = ["derive", "env"] }
ratatui = "*"
serde = { version = "*", features = ["derive"] }
throbber-widgets-tui = "*"
toml = "*"
tracing = "*"
tracing-chrome = "*"
tracing-subscriber = "*"
