[package]
name = "icinga2ctl"
version = "0.9.0"
edition = "2021"
publish = false

[dependencies]
ansi_term = "0.12"
base64 = "0.13"
chrono = "0.4"
clap = "2.33"
http = "0.2"
reqwest = { version = "0.11", features = ["blocking", "native-tls"] }
rust-ini = "0.16"
serde = { version = "1", features = ["derive"] }
serde_json = "1"
simple-error = "0.2"
url = "2"
users = "0.11"
