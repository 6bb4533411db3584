[package]
name = "somars"
version = "0.1.0"
edition = "2021"
publish = false

[dependencies]
chrono = { version = "*", default-features = false, features = ["clock"] }
clap = { version = "*", default-features = false, features = ["derive", "std"] }
crossterm = "*"
dirs = "*"
fluent = "*"
futures = "*"
icy-metadata = "*"
once_cell = "*"
ratatui = "*"
reqwest = { version = "*", default-features = false, features = ["json"] }
serde = { version = "*", features = ["derive"] }
serde_json = "*"
stream-download = "*"
textwrap = { version = "*", default-features = false }
thiserror = "*"
tokio = { version = "*", features = ["rt-multi-thread", "macros", "sync", "net", "time"] }
toml = "*"
unic-langid = "*"
