[package]
name = "journal_editor"
version = "0.1.0"
edition = "2021"
publish = false

[dependencies]
anyhow = "1"
arboard = { version = "3", default-features = false }
chrono = "0.4"
crossterm = "0.28"
ratatui = "0.29"
serde = { version = "1", features = ["derive"] }
textwrap = "0.16"
tui-textarea = "0.7"
