[package]
name = "session_auth"
version = "0.1.0"
edition = "2021"
publish = false

[dependencies]
cookie = { version = "=0.2.5", default-features = false }
rand = "=0.3.23"
rustc-serialize = "=0.3.25"
iron = "=0.6.1"
persistent = "=0.4.0"
plugin = "=0.2.6"
router = "=0.6.0"
mount = "=0.4.0"
logger = "=0.4.0"
log = "=0.4.34"
env_logger = "=0.11.11"
quick-error = "=2.0.1"
