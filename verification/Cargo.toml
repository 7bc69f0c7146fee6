[package]
name = "db2_exporter"
version = "0.1.0"
edition = "2021"
publish = false

[dependencies]
anyhow = "1"
dialoguer = "0.11"
futures = "0.3"
indicatif = "0.17"
reqwest = "0.12"
tokio = { version = "1", features = ["macros", "rt-multi-thread", "sync", "time"] }
