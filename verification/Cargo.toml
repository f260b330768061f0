[package]
name = "async_echo_server"
version = "0.1.0"
edition = "2021"
publish = false

[dependencies]
anyhow = "1"
async-trait = "0.1"
bytes = "1"
env_logger = "0.9"
futures = "0.3"
futures-util = "0.3"
http = "0.2"
http-body = "0.4"
lazy_static = "1"
libc = "0.2"
log = "0.4"
num_cpus = "1"
pin-project-lite = "0.2"
regex = "1"
thiserror = "1"
toml = "0.5"
tower = { version = "0.4", features = ["util"] }
tower-service = "0.3"
