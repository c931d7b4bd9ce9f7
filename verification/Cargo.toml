[package]
name = "cihui_tui"
version = "0.1.0"
edition = "2021"
publish = false

[dependencies]
pinyin = "=0.10.0"
urlencoding = "=2.1.3"
serde = { version = "1", features = ["derive"] }
serde_json = "1"
anyhow = "1"
tokio = { version = "1", features = ["rt-multi-thread", "macros", "time", "process", "sync", "fs"] }
reqwest = { version = "0.12", features = ["json"] }
ratatui = "0.29"
crossterm = "0.28"
clap = { version = "4", features = ["derive"] }
arboard = "3"
libc = "0.2"
once_cell = "1"
image = { version = "0.25", default-features = false, features = ["png", "jpeg"] }
