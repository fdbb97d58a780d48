[package]
name = "abstractions"
version = "0.1.0"
edition = "2021"
publish = false

[dependencies]
heapless = "0.8"
nix = { version = "0.29", features = ["poll", "signal", "event", "fs", "term", "process", "time"] }
libc = "0.2"
toml = "0.8"
libloading = "0.8"
clap = { version = "4", features = ["env"] }
log = "0.4"
simplelog = "0.12"
