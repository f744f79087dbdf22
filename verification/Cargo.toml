[package]
name = "obs-service-cargo"
version = "0.1.0"
edition = "2021"
publish = false

[dependencies]
infer = "0.15"
clap = { version = "4", features = ["derive"] }
flate2 = "1"
tar = "0.4"
xz2 = "0.1"
zstd = "0.13"
glob = "0.3"
tempfile = "3"
terminfo = "0.8"
tracing = "0.1"
tracing-subscriber = { version = "0.3", features = ["env-filter"] }
