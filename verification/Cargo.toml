[package]
name = "dynamic-hibernate"
version = "0.1.0"
edition = "2021"
publish = false

[dependencies]
anyhow = "1"
clap = { version = "4", features = ["derive"] }
futures-util = "0.3"
nix = { version = "0.29", features = ["fs", "user"] }
notify-rust = "4"
procfs = "0.17"
serde = { version = "1", features = ["derive"] }
serde_json = "1"
tokio = { version = "1", features = ["rt", "time", "macros"] }
tracing = "0.1"
tracing-journald = "0.3"
tracing-subscriber = { version = "0.3", features = ["env-filter", "fmt"] }
which = "7"
zbus = { version = "5", default-features = false, features = ["tokio"] }
