[package]
name = "trusttunnel_keenetic"
version = "0.1.0"
edition = "2021"
publish = false

[dependencies]
clap = { version = "4", features = ["derive"] }
hex = "0.4"
log = "0.4"
md-5 = "0.10"
nix = { version = "0.29", features = ["fs", "net", "process", "signal"] }
serde = { version = "1", features = ["derive"] }
serde_json = "1"
sha2 = "0.10"
tiny_http = "0.12"
ureq = { version = "2", default-features = false }
uuid = { version = "1", features = ["v4"] }
