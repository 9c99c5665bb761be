[package]
name = "minmon"
version = "0.1.0"
edition = "2021"
publish = false

[dependencies]
bollard = "*"
chrono = "*"
cron = "*"
dasp_ring_buffer = "*"
env_logger = "*"
lettre = { version = "*", default-features = false, features = ["smtp-transport", "builder", "tokio1", "tokio1-rustls-tls"] }
libsystemd = "*"
log = "*"
nix = { version = "*", features = ["fs"] }
rand = "*"
reqwest = { version = "*", default-features = false, features = ["rustls-tls"] }
sensors = "*"
serde = { version = "*", features = ["derive"] }
systemd-journal-logger = "*"
tokio = { version = "*", features = ["rt", "time", "fs", "process", "signal", "net", "macros", "sync", "io-util"] }
toml = "*"

[dev-dependencies]
text_placeholder = "*"
