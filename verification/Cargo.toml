[package]
name = "netrunner_cli"
version = "0.1.0"
edition = "2021"
publish = false

[dependencies]
bincode = "=1.3.3"
chrono = { version = "=0.4.45", features = ["serde"] }
clap = "=4.6.7"
colored = "=2.2.0"
console = "=0.15.11"
crossterm = "=0.28.1"
dialoguer = "=0.11.0"
dirs = "=5.0.1"
dns-lookup = "=2.1.1"
futures = "=0.3.34"
indicatif = "=0.17.11"
prettytable-rs = { version = "=0.10.0", default-features = false }
rand = "=0.8.8"
ratatui = { version = "=0.30.2", default-features = false, features = ["crossterm_0_28", "layout-cache"] }
reqwest = { version = "=0.12.28", default-features = false, features = ["json", "stream", "rustls-tls", "http2"] }
serde = { version = "=1.0.229", features = ["derive"] }
serde_json = "=1.0.154"
sled = "=0.34.7"
strum = { version = "=0.26.3", features = ["derive"] }
strum_macros = "=0.26.4"
tokio = { version = "=1.54.1", features = ["macros", "rt-multi-thread", "time", "signal", "sync"] }
tui-piechart = "=1.4.2"
