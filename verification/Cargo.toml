[package]
name = "linux-3-finger-drag"
version = "0.1.0"
edition = "2021"
publish = false

[dependencies]
input = { version = "=0.10.0", default-features = false, features = ["libinput_1_21"] }
input-linux = "=0.7.1"
nix = "=0.31.3"
serde = { version = "=1.0.229", features = ["derive"] }
serde_json = "=1.0.154"
serde_with = "=3.24.0"
signal-hook = "=0.4.5"
smol = "=2.0.2"
tracing = "=0.1.44"
tracing-subscriber = { version = "=0.3.23", features = ["chrono"] }
users = "=0.11.0"
