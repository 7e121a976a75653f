[package]
name = "port_blaster"
version = "0.1.0"
edition = "2021"
publish = false

[dependencies]
anyhow = "*"
clap = { version = "*", features = ["derive"] }
colored = "*"
tokio = { version = "*", features = ["macros", "net", "rt-multi-thread", "time"] }
