[package]
name = "strofa"
version = "0.1.0"
edition = "2021"
publish = false

[dependencies]
anyhow = "1"
async-trait = "0.1"
crossterm = "0.25"
futures = "0.3"
futures-util = "0.3"
mpd_client = "0.7"
tokio = { version = "1", features = ["rt", "net", "macros", "time", "sync"] }
tracing-subscriber = { version = "0.3", features = ["env-filter"] }
tui = "0.19"
