[package]
name = "pylot"
version = "0.1.0"
edition = "2021"
publish = false

[dependencies]
clap = { version = "*", features = ["derive"] }
clap_complete = "*"
colored = "*"
comfy-table = "*"
config = "*"
ctrlc = "*"
env_logger = "*"
log = "*"
serde = { version = "*", features = ["derive"] }
shellexpand = "*"
tokio = { version = "*", features = ["rt-multi-thread", "macros", "process", "io-util", "fs"] }
which = "*"
