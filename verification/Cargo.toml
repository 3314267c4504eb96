[package]
name = "catfood_bar"
version = "0.1.0"
edition = "2021"
publish = false

[dependencies]
battery = "0.7"
chrono = "0.4"
clap = { version = "4", features = ["derive"] }
color-eyre = "0.6"
crossterm = "0.28"
lazy_static = "1"
libc = "0.2"
mlua = { version = "0.10", features = ["lua54", "vendored"] }
notify = "6"
ratatui = "0.29"
regex = "1"
reqwest = { version = "0.12", default-features = false, features = ["json"] }
serde = { version = "1", features = ["derive"] }
serde_json = "1"
sysinfo = "0.33"
tokio = { version = "1", features = ["rt-multi-thread", "macros", "sync", "time"] }
wayland-client = "0.31"
which = "6"
