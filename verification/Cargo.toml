[package]
name = "qmanager"
version = "0.1.0"
edition = "2021"
publish = false

[dependencies]
clap = "2"
config = { version = "0.10", default-features = false, features = ["toml"] }
daemonize = "*"
log = "0.4"
nix = "0.26"
reqwest = { version = "0.11", default-features = false, features = ["blocking", "rustls-tls"] }
serde = { version = "1", features = ["derive"] }
serde_derive = "1"
serde_json = "1"
signal-hook = "0.3"
simplelog = "0.12"
structopt = "0.3"
syslog = "6"
systemd = "*"
tiny_http = { version = "0.12", features = ["ssl-rustls"] }
