[package]
name = "frame_pipeline"
version = "0.1.0"
edition = "2021"
publish = false

[dependencies]
crossbeam-queue = "=0.3.14"
regex = "=1.13.1"
url = "=2.5.8"
anyhow = "=1.0.104"
ashpd = { version = "=0.13.13", features = ["background", "inhibit", "open_uri", "gtk4"] }
cef = "=156.1.0"
chrono = "=0.4.45"
clap = { version = "=4.6.7", features = ["derive"] }
dirs = "=7.0.0"
discord-rich-presence = "=1.1.0"
flume = "=0.12.0"
gettext-rs = "=0.8.0"
glib = "=0.22.10"
gtk4 = { version = "=0.11.5", features = ["v4_14"] }
image = { version = "=0.25.10", default-features = false, features = ["png"] }
itertools = "=0.15.0"
ksni = "=0.3.7"
libadwaita = { version = "=0.9.2", features = ["v1_5"] }
libc = "=0.2.191"
libloading = "=0.9.0"
libmpv2 = "=6.0.0"
mimalloc = "=0.1.52"
reqwest = { version = "=0.13.5", features = ["blocking", "json"] }
serde = { version = "=1.0.229", features = ["derive"] }
serde_json = "=1.0.154"
tokio = { version = "=1.54.1", features = ["rt-multi-thread", "sync"] }
tracing = "=0.1.44"
tracing-subscriber = "=0.3.23"
zbus = "=5.19.0"
