[package]
name = "aether_shell"
version = "0.1.0"
edition = "2021"
publish = false

[dependencies]
auto-launch = "*"
chrono = "*"
dirs = "*"
env_logger = "*"
global-hotkey = "*"
log = "*"
reqwest = { version = "*", default-features = false, features = ["json"] }
serde_json = "*"
tokio = { version = "*", features = ["rt-multi-thread", "macros"] }
