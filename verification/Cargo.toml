[package]
name = "multiverse"
version = "0.1.0"
edition = "2021"
publish = false

[dependencies]
argh = "*"
as_variant = "*"
chrono = "*"
crossterm = "*"
futures = "*"
itertools = "*"
ratatui = "*"
rpassword = "*"
textwrap = "*"
thiserror = "*"
tokio = { version = "*", features = ["full"] }
tracing-subscriber = "*"
tui-logger = { version = "*", features = ["tracing-support"] }
tui-textarea = "*"
