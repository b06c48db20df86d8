[package]
name = "benchmark_runner"
version = "0.1.0"
edition = "2021"
publish = false

[dependencies]
tokio = { version = "*", features = ["macros", "rt-multi-thread", "time"] }
reqwest = { version = "*", default-features = false, features = ["json"] }
serde = { version = "*", features = ["derive"] }
serde_json = "*"
thiserror = "*"
ctrlc = "*"
futures = "*"
log = "*"
env_logger = "*"
rand = "*"
bytes = "*"
