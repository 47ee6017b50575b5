[package]
name = "userns_child_exec"
version = "0.1.0"
edition = "2021"
publish = false

[dependencies]
nix = { version = "*", features = ["sched", "signal", "process", "user", "fs", "mount", "hostname"] }
clap = { version = "*", features = ["derive"] }
tokio = { version = "*", features = ["full"] }
log = "*"
env_logger = "*"
scopeguard = "*"
