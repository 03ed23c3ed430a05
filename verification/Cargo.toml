[package]
name = "print_agent"
version = "0.2.0"
edition = "2021"
publish = false

[dependencies]
anyhow = "1"
directories = "5"
env_logger = { version = "0.11", default-features = false }
hostname = "0.4"
log = "0.4"
reqwest = { version = "0.12", default-features = false, features = ["json", "rustls-tls"] }
serde = { version = "1", features = ["derive"] }
serde_json = "1"
tempfile = "3"
tokio = { version = "1", features = ["macros", "process", "rt-multi-thread", "sync", "time"] }
