[package]
name = "csm"
version = "0.1.0"
edition = "2021"
publish = false

[dependencies]
bzip2 = "0.5"
clap = { version = "4", features = ["derive"] }
clap_complete = "4"
dirs = "6"
env_logger = "0.11"
log = "0.4"
reqwest = { version = "0.12", default-features = false, features = ["blocking", "rustls-tls"] }
serde = { version = "1", features = ["derive"] }
serde_json = "1"
serde_yaml_ng = "0.10"
sysinfo = "0.33"
tar = "0.4"
